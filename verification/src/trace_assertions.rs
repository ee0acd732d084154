//! Checks of what a backend session was sent or did, each giving back on
//! failure a message that lays out what was expected against what was
//! observed.

use vstd::prelude::*;

use crate::backend_api::{frame_kind, same_frame, spec_frame_kind, BackendDiagnostics, BackendFrame};
use crate::testkit::{BackendTrace, TraceDirection};
use crate::text::{decimal, push_decimal};

verus! {

/// Two frame lists match frame for frame.
pub open spec fn frames_match(actual: Seq<BackendFrame>, expected: Seq<BackendFrame>) -> bool {
    actual.len() == expected.len() && forall|i: int|
        0 <= i < actual.len() ==> same_frame(#[trigger] actual[i], expected[i])
}

/// How the frame at `index` of a list is summarised: its kind in quotes,
/// or `<missing>` past the end.
pub open spec fn frame_summary(frames: Seq<BackendFrame>, index: int) -> Seq<char> {
    if index < frames.len() {
        "\""@ + spec_frame_kind(frames[index]) + "\""@
    } else {
        "<missing>"@
    }
}

/// The line of the frame comparison for position `index`, marked `*` where
/// the two lists differ.
pub open spec fn frame_line(actual: Seq<BackendFrame>, expected: Seq<BackendFrame>, index: int) -> Seq<
    char,
> {
    let marker = if index < actual.len() && index < expected.len() && same_frame(
        actual[index],
        expected[index],
    ) {
        " "@
    } else {
        "*"@
    };
    "  ["@ + decimal(index as nat) + "] "@ + marker + " expected="@ + frame_summary(expected, index)
        + " actual="@ + frame_summary(actual, index) + "\n"@
}

/// The comparison lines of the first `n` positions.
pub open spec fn frame_lines(actual: Seq<BackendFrame>, expected: Seq<BackendFrame>, n: nat) -> Seq<
    char,
>
    decreases n,
{
    if n == 0 {
        Seq::empty()
    } else {
        frame_lines(actual, expected, (n - 1) as nat) + frame_line(actual, expected, n - 1)
    }
}

/// The message a frame-list mismatch is reported with.
pub open spec fn captured_frames_message(actual: Seq<BackendFrame>, expected: Seq<BackendFrame>) -> Seq<
    char,
> {
    let longest = if actual.len() > expected.len() {
        actual.len()
    } else {
        expected.len()
    };
    "assert_captured_frames failed\n"@ + "  expected len: "@ + decimal(expected.len()) + "\n"@
        + "  actual len:   "@ + decimal(actual.len()) + "\n"@ + frame_lines(
        actual,
        expected,
        longest,
    )
}

fn push_frame_summary(message: &mut String, frames: &[BackendFrame], index: usize)
    ensures
        final(message)@ == old(message)@ + frame_summary(frames@, index as int),
{
    if index < frames.len() {
        message.append("\"");
        message.append(frame_kind(&frames[index]));
        message.append("\"");
    } else {
        message.append("<missing>");
    }
}

fn push_frame_line(
    message: &mut String,
    actual: &[BackendFrame],
    expected: &[BackendFrame],
    position: usize,
)
    ensures
        final(message)@ == old(message)@ + frame_line(actual@, expected@, position as int),
{
    message.append("  [");
    push_decimal(message, position as u64);
    message.append("] ");
    let same = position < actual.len() && position < expected.len() && actual[position].same_as(
        &expected[position],
    );
    if same {
        message.append(" ");
    } else {
        message.append("*");
    }
    message.append(" expected=");
    push_frame_summary(message, expected, position);
    message.append(" actual=");
    push_frame_summary(message, actual, position);
    message.append("\n");
    assert(message@ =~= old(message)@ + frame_line(actual@, expected@, position as int));
}

fn frame_lists_match(actual: &[BackendFrame], expected: &[BackendFrame]) -> (same: bool)
    ensures
        same == frames_match(actual@, expected@),
{
    if actual.len() != expected.len() {
        return false;
    }
    let mut index: usize = 0;
    while index < actual.len()
        invariant
            index <= actual@.len(),
            actual@.len() == expected@.len(),
            forall|i: int| 0 <= i < index ==> same_frame(actual@[i], expected@[i]),
        decreases actual@.len() - index,
    {
        if !actual[index].same_as(&expected[index]) {
            return false;
        }
        index = index + 1;
    }
    true
}

/// Check that the frames a backend captured are, frame for frame, the
/// expected ones; `Err` carries a per-position comparison.
pub fn assert_captured_frames(actual: &[BackendFrame], expected: &[BackendFrame]) -> (result: Result<
    (),
    String,
>)
    ensures
        result is Ok <==> frames_match(actual@, expected@),
        result matches Err(message) ==> message@ == captured_frames_message(actual@, expected@),
{
    if frame_lists_match(actual, expected) {
        return Ok(());
    }
    let mut message = String::from_str("assert_captured_frames failed\n");
    message.append("  expected len: ");
    push_decimal(&mut message, expected.len() as u64);
    message.append("\n");
    message.append("  actual len:   ");
    push_decimal(&mut message, actual.len() as u64);
    message.append("\n");
    let longest: usize = if actual.len() > expected.len() {
        actual.len()
    } else {
        expected.len()
    };
    let ghost head = message@;
    let mut position: usize = 0;
    while position < longest
        invariant
            position <= longest,
            message@ == head + frame_lines(actual@, expected@, position as nat),
        decreases longest - position,
    {
        push_frame_line(&mut message, actual, expected, position);
        position = position + 1;
        assert(message@ =~= head + frame_lines(actual@, expected@, position as nat));
    }
    assert(message@ =~= captured_frames_message(actual@, expected@));
    Err(message)
}

/// The name a trace direction is printed with.
pub open spec fn direction_name(direction: TraceDirection) -> Seq<char> {
    match direction {
        TraceDirection::Outbound => "Outbound"@,
        TraceDirection::Inbound => "Inbound"@,
        TraceDirection::Error => "Error"@,
    }
}

/// The first `n` directions, comma separated.
pub open spec fn direction_items(directions: Seq<TraceDirection>, n: nat) -> Seq<char>
    decreases n,
{
    if n == 0 {
        Seq::empty()
    } else if n == 1 {
        direction_name(directions[0])
    } else {
        direction_items(directions, (n - 1) as nat) + ", "@ + direction_name(directions[n - 1])
    }
}

/// A list of directions as printed: `[Outbound, Inbound]`.
pub open spec fn direction_list(directions: Seq<TraceDirection>) -> Seq<char> {
    "["@ + direction_items(directions, directions.len()) + "]"@
}

/// The directions of a trace's steps.
pub open spec fn trace_directions(trace: BackendTrace) -> Seq<TraceDirection> {
    trace.steps@.map_values(|step: crate::testkit::BackendTraceStep| step.direction)
}

/// The message a direction mismatch is reported with.
pub open spec fn trace_directions_message(actual: Seq<TraceDirection>, expected: Seq<TraceDirection>) -> Seq<
    char,
> {
    "assert_trace_directions failed\n"@ + "  expected: "@ + direction_list(expected) + "\n"@
        + "  actual:   "@ + direction_list(actual) + "\n"@
}

fn direction_text(direction: TraceDirection) -> (text: &'static str)
    ensures
        text@ == direction_name(direction),
{
    match direction {
        TraceDirection::Outbound => "Outbound",
        TraceDirection::Inbound => "Inbound",
        TraceDirection::Error => "Error",
    }
}

fn push_direction_list(message: &mut String, directions: &Vec<TraceDirection>)
    ensures
        final(message)@ == old(message)@ + direction_list(directions@),
{
    message.append("[");
    let ghost head = message@;
    let mut index: usize = 0;
    while index < directions.len()
        invariant
            index <= directions@.len(),
            message@ == head + direction_items(directions@, index as nat),
        decreases directions@.len() - index,
    {
        if index > 0 {
            message.append(", ");
        }
        message.append(direction_text(directions[index]));
        index = index + 1;
        assert(message@ =~= head + direction_items(directions@, index as nat));
    }
    message.append("]");
    assert(message@ =~= old(message)@ + direction_list(directions@));
}

fn directions_match(actual: &Vec<TraceDirection>, expected: &[TraceDirection]) -> (same: bool)
    ensures
        same == (actual@ == expected@),
{
    if actual.len() != expected.len() {
        return false;
    }
    let mut index: usize = 0;
    while index < actual.len()
        invariant
            index <= actual@.len(),
            actual@.len() == expected@.len(),
            forall|i: int| 0 <= i < index ==> actual@[i] == expected@[i],
        decreases actual@.len() - index,
    {
        if actual[index] != expected[index] {
            return false;
        }
        index = index + 1;
    }
    assert(actual@ =~= expected@);
    true
}

/// Check that a trace's steps went in the expected directions; `Err`
/// carries both direction lists.
pub fn assert_trace_directions(trace: &BackendTrace, expected: &[TraceDirection]) -> (result: Result<
    (),
    String,
>)
    ensures
        result is Ok <==> trace_directions(*trace) == expected@,
        result matches Err(message) ==> message@ == trace_directions_message(
            trace_directions(*trace),
            expected@,
        ),
{
    let mut actual: Vec<TraceDirection> = Vec::new();
    let mut index: usize = 0;
    while index < trace.steps.len()
        invariant
            index <= trace.steps@.len(),
            actual@ == trace_directions(*trace).subrange(0, index as int),
        decreases trace.steps@.len() - index,
    {
        actual.push(trace.steps[index].direction);
        index = index + 1;
        assert(actual@ =~= trace_directions(*trace).subrange(0, index as int));
    }
    assert(actual@ =~= trace_directions(*trace));
    if directions_match(&actual, expected) {
        return Ok(());
    }
    let mut expected_list: Vec<TraceDirection> = Vec::new();
    let mut k: usize = 0;
    while k < expected.len()
        invariant
            k <= expected@.len(),
            expected_list@ == expected@.subrange(0, k as int),
        decreases expected@.len() - k,
    {
        expected_list.push(expected[k]);
        k = k + 1;
        assert(expected_list@ =~= expected@.subrange(0, k as int));
    }
    assert(expected_list@ =~= expected@);
    let mut message = String::from_str("assert_trace_directions failed\n");
    message.append("  expected: ");
    push_direction_list(&mut message, &expected_list);
    message.append("\n");
    message.append("  actual:   ");
    push_direction_list(&mut message, &actual);
    message.append("\n");
    assert(message@ =~= trace_directions_message(actual@, expected@));
    Err(message)
}

/// The message a counter mismatch is reported with.
pub open spec fn diagnostics_counters_message(
    frames_sent: u64,
    expected_frames_sent: u64,
    reverse_events_drained: u64,
    expected_reverse_events_drained: u64,
) -> Seq<char> {
    "assert_diagnostics_counters failed\n"@ + "  frames_sent:            expected="@ + decimal(
        expected_frames_sent as nat,
    ) + " actual="@ + decimal(frames_sent as nat) + "\n"@ + "  reverse_events_drained: expected="@
        + decimal(expected_reverse_events_drained as nat) + " actual="@ + decimal(
        reverse_events_drained as nat,
    ) + "\n"@
}

/// Check a backend's sent-frame and drained-event counters; other counters
/// are not looked at. `Err` carries both pairs.
pub fn assert_diagnostics_counters(
    diagnostics: &BackendDiagnostics,
    expected_frames_sent: u64,
    expected_reverse_events_drained: u64,
) -> (result: Result<(), String>)
    ensures
        result is Ok <==> (diagnostics.frames_sent == expected_frames_sent
            && diagnostics.reverse_events_drained == expected_reverse_events_drained),
        result matches Err(message) ==> message@ == diagnostics_counters_message(
            diagnostics.frames_sent,
            expected_frames_sent,
            diagnostics.reverse_events_drained,
            expected_reverse_events_drained,
        ),
{
    if diagnostics.frames_sent == expected_frames_sent && diagnostics.reverse_events_drained
        == expected_reverse_events_drained {
        return Ok(());
    }
    let mut message = String::from_str("assert_diagnostics_counters failed\n");
    message.append("  frames_sent:            expected=");
    push_decimal(&mut message, expected_frames_sent);
    message.append(" actual=");
    push_decimal(&mut message, diagnostics.frames_sent);
    message.append("\n");
    message.append("  reverse_events_drained: expected=");
    push_decimal(&mut message, expected_reverse_events_drained);
    message.append(" actual=");
    push_decimal(&mut message, diagnostics.reverse_events_drained);
    message.append("\n");
    assert(message@ =~= diagnostics_counters_message(
        diagnostics.frames_sent,
        expected_frames_sent,
        diagnostics.reverse_events_drained,
        expected_reverse_events_drained,
    ));
    Err(message)
}

} // verus!
