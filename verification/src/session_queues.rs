//! The session's bounded queues and input-ordering checks: the input
//! queue coalesces the newest frame into a full queue, the reverse
//! (output) queue applies the session's backpressure policy.

use std::collections::VecDeque;
use vstd::prelude::*;

use crate::runtime_model::BackpressurePolicy;
use crate::session::SessionSendError;
use crate::session_options::AcceptedUpdateKind;
use crate::text::{decimal, push_decimal};

verus! {

/// What an accepted input frame did to the queue.
#[derive(Debug, Clone, Copy, PartialEq, Eq, Structural)]
pub struct InputAdmission {
    /// The frame replaced the newest queued frame instead of growing the
    /// queue (the session's coalesced-frames counter goes up by one).
    pub coalesced: bool,
    /// The queue depth afterwards (for the depth high-water mark).
    pub depth: usize,
}

/// The queue contents and outcome after sending `frame` to an input
/// queue holding `items`.
pub open spec fn spec_enqueue<T>(items: Seq<T>, capacity: nat, closed: bool, frame: T) -> (
    Seq<T>,
    Result<InputAdmission, SessionSendError>,
) {
    if closed {
        (items, Err(SessionSendError::SessionClosed))
    } else if capacity == 0 {
        (items, Err(SessionSendError::QueueFull))
    } else if items.len() >= capacity {
        (
            items.drop_last().push(frame),
            Ok(InputAdmission { coalesced: true, depth: items.len() as usize }),
        )
    } else {
        (items.push(frame), Ok(InputAdmission { coalesced: false, depth: (items.len() + 1) as usize }))
    }
}

/// Bounded FIFO of input frames; a frame sent into a full queue replaces
/// the newest queued frame.
pub struct InputQueue<T> {
    queue: VecDeque<T>,
    capacity: usize,
    closed: bool,
}

impl<T> InputQueue<T> {
    /// The queued frames, oldest first.
    pub closed spec fn items(&self) -> Seq<T> {
        self.queue@
    }

    pub closed spec fn spec_capacity(&self) -> nat {
        self.capacity as nat
    }

    pub closed spec fn is_closed(&self) -> bool {
        self.closed
    }

    /// The queue never holds more frames than its capacity.
    pub closed spec fn wf(&self) -> bool {
        self.queue@.len() <= self.capacity
    }

    pub fn new(capacity: usize) -> (queue: Self)
        ensures
            queue.wf(),
            queue.items() == Seq::<T>::empty(),
            queue.spec_capacity() == capacity,
            !queue.is_closed(),
    {
        InputQueue { queue: VecDeque::new(), capacity, closed: false }
    }

    /// Queue one frame. A closed queue refuses it, a queue of capacity
    /// zero is always full, and a full queue replaces its newest frame.
    pub fn enqueue(&mut self, frame: T) -> (result: Result<InputAdmission, SessionSendError>)
        requires
            old(self).wf(),
        ensures
            final(self).wf(),
            final(self).items().len() <= final(self).spec_capacity(),
            final(self).spec_capacity() == old(self).spec_capacity(),
            final(self).is_closed() == old(self).is_closed(),
            (final(self).items(), result) == spec_enqueue(
                old(self).items(),
                old(self).spec_capacity(),
                old(self).is_closed(),
                frame,
            ),
    {
        if self.closed {
            return Err(SessionSendError::SessionClosed);
        }
        if self.capacity == 0 {
            return Err(SessionSendError::QueueFull);
        }
        let coalesced = self.queue.len() >= self.capacity;
        if coalesced {
            self.queue.pop_back();
        }
        self.queue.push_back(frame);
        Ok(InputAdmission { coalesced, depth: self.queue.len() })
    }

    /// Take every queued frame, oldest first.
    pub fn pop_all(&mut self) -> (frames: Vec<T>)
        requires
            old(self).wf(),
        ensures
            final(self).wf(),
            frames@ == old(self).items(),
            final(self).items() == Seq::<T>::empty(),
            final(self).spec_capacity() == old(self).spec_capacity(),
            final(self).is_closed() == old(self).is_closed(),
    {
        let mut frames: Vec<T> = Vec::new();
        while self.queue.len() > 0
            invariant
                frames@ + self.queue@ == old(self).queue@,
                self.capacity == old(self).capacity,
                self.closed == old(self).closed,
            decreases self.queue@.len(),
        {
            let ghost before = self.queue@;
            match self.queue.pop_front() {
                Some(frame) => {
                    frames.push(frame);
                    assert(frames@ + self.queue@ =~= old(self).queue@) by {
                        assert(before =~= seq![before[0]] + self.queue@);
                    }
                },
                None => {},
            }
        }
        assert(frames@ =~= old(self).queue@);
        frames
    }

    pub fn is_empty(&self) -> (empty: bool)
        ensures
            empty == (self.items().len() == 0),
    {
        self.queue.len() == 0
    }

    /// Refuse every later frame; queued frames stay.
    pub fn close(&mut self)
        requires
            old(self).wf(),
        ensures
            final(self).wf(),
            final(self).is_closed(),
            final(self).items() == old(self).items(),
            final(self).spec_capacity() == old(self).spec_capacity(),
    {
        self.closed = true;
    }
}

/// What the reverse queue did with an offered output command.
#[derive(Debug, Clone, PartialEq, Eq)]
pub enum ReverseAdmission<T> {
    /// The queue is closed; the command is discarded silently.
    Closed,
    /// The command was dropped (counted as a dropped reverse event).
    Dropped,
    /// The command was queued; `depth` is the new queue depth.
    Enqueued { depth: usize },
    /// The oldest queued command was dropped to make room (counted as a
    /// dropped reverse event); `depth` is the queue depth afterwards.
    ReplacedOldest { depth: usize },
    /// The queue is full and the policy blocks the producer: the command
    /// is handed back to be offered again once the queue drains.
    MustWait(T),
}

impl<T> ReverseAdmission<T> {
    /// How many reverse events this admission dropped.
    pub fn dropped_count(&self) -> (count: u64)
        ensures
            count == (if self is Dropped || self is ReplacedOldest {
                1int
            } else {
                0int
            }),
    {
        match self {
            ReverseAdmission::Dropped | ReverseAdmission::ReplacedOldest { .. } => 1,
            _ => 0,
        }
    }

    /// The queue depth to record in the high-water mark, if the queue grew
    /// or turned over.
    pub fn observed_depth(&self) -> (depth: Option<usize>)
        ensures
            depth == match self {
                ReverseAdmission::Enqueued { depth } => Some(*depth),
                ReverseAdmission::ReplacedOldest { depth } => Some(*depth),
                _ => None::<usize>,
            },
    {
        match self {
            ReverseAdmission::Enqueued { depth } => Some(*depth),
            ReverseAdmission::ReplacedOldest { depth } => Some(*depth),
            _ => None,
        }
    }
}

/// The queue contents and admission after offering `command` to a queue
/// holding `items`: a closed queue discards it; a queue of capacity zero
/// drops it; a queue with room appends it; a full queue drops it
/// (`DropNewest`), drops its oldest command and appends it (`DropOldest`),
/// or hands it back to wait (`BlockProducer`).
pub open spec fn spec_offer<T>(
    items: Seq<T>,
    capacity: nat,
    closed: bool,
    command: T,
    policy: BackpressurePolicy,
) -> (Seq<T>, ReverseAdmission<T>) {
    if closed {
        (items, ReverseAdmission::Closed)
    } else if capacity == 0 {
        (items, ReverseAdmission::Dropped)
    } else if items.len() < capacity {
        (items.push(command), ReverseAdmission::Enqueued { depth: (items.len() + 1) as usize })
    } else {
        match policy {
            BackpressurePolicy::DropNewest { .. } => (items, ReverseAdmission::Dropped),
            BackpressurePolicy::DropOldest { .. } => (
                items.drop_first().push(command),
                ReverseAdmission::ReplacedOldest { depth: items.len() as usize },
            ),
            BackpressurePolicy::BlockProducer { .. } => (items, ReverseAdmission::MustWait(command)),
        }
    }
}

/// Offering a command to a reverse queue within its capacity keeps it
/// within capacity and does exactly this: a closed queue discards it; a
/// queue of capacity zero drops it; a queue with room appends it; a full
/// queue drops it under drop-newest, drops the oldest and appends it under
/// drop-oldest, and hands it back to wait under block-producer, never
/// dropping. A command is counted as dropped exactly when it or the oldest
/// was dropped.
pub proof fn lemma_reverse_backpressure<T>(
    items: Seq<T>,
    capacity: nat,
    closed: bool,
    command: T,
    policy: BackpressurePolicy,
)
    requires
        items.len() <= capacity,
    ensures
        ({
            let (after, admission) = spec_offer(items, capacity, closed, command, policy);
            &&& after.len() <= capacity
            &&& closed ==> after == items && admission is Closed
            &&& !closed && capacity == 0 ==> after == items && admission is Dropped
            &&& !closed && 0 < capacity && items.len() < capacity ==> after == items.push(command)
                && admission is Enqueued
            &&& !closed && 0 < capacity && items.len() == capacity ==> match policy {
                BackpressurePolicy::DropNewest { .. } => after == items && admission is Dropped,
                BackpressurePolicy::DropOldest { .. } => after == items.drop_first().push(command)
                    && admission is ReplacedOldest,
                BackpressurePolicy::BlockProducer { .. } => after == items && admission
                    == ReverseAdmission::MustWait(command),
            }
            &&& (admission is Dropped || admission is ReplacedOldest) ==> !(policy is BlockProducer)
                || capacity == 0
        }),
{
}

/// Bounded FIFO of output commands on their way to the host's sinks.
pub struct ReverseQueue<T> {
    queue: VecDeque<T>,
    capacity: usize,
    closed: bool,
}

impl<T> ReverseQueue<T> {
    /// The queued commands, oldest first.
    pub closed spec fn items(&self) -> Seq<T> {
        self.queue@
    }

    pub closed spec fn spec_capacity(&self) -> nat {
        self.capacity as nat
    }

    pub closed spec fn is_closed(&self) -> bool {
        self.closed
    }

    /// The queue never holds more commands than its capacity.
    pub closed spec fn wf(&self) -> bool {
        self.queue@.len() <= self.capacity
    }

    pub fn new(capacity: usize) -> (queue: Self)
        ensures
            queue.wf(),
            queue.items() == Seq::<T>::empty(),
            queue.spec_capacity() == capacity,
            !queue.is_closed(),
    {
        ReverseQueue { queue: VecDeque::new(), capacity, closed: false }
    }

    /// Offer one command under the session's backpressure policy.
    pub fn offer(&mut self, command: T, policy: &BackpressurePolicy) -> (admission:
        ReverseAdmission<T>)
        requires
            old(self).wf(),
        ensures
            final(self).wf(),
            final(self).items().len() <= final(self).spec_capacity(),
            final(self).spec_capacity() == old(self).spec_capacity(),
            final(self).is_closed() == old(self).is_closed(),
            (final(self).items(), admission) == spec_offer(
                old(self).items(),
                old(self).spec_capacity(),
                old(self).is_closed(),
                command,
                *policy,
            ),
    {
        if self.closed {
            return ReverseAdmission::Closed;
        }
        if self.capacity == 0 {
            return ReverseAdmission::Dropped;
        }
        if self.queue.len() < self.capacity {
            self.queue.push_back(command);
            return ReverseAdmission::Enqueued { depth: self.queue.len() };
        }
        match policy {
            BackpressurePolicy::DropNewest { .. } => ReverseAdmission::Dropped,
            BackpressurePolicy::DropOldest { .. } => {
                self.queue.pop_front();
                self.queue.push_back(command);
                ReverseAdmission::ReplacedOldest { depth: self.queue.len() }
            },
            BackpressurePolicy::BlockProducer { .. } => ReverseAdmission::MustWait(command),
        }
    }

    /// Take the oldest queued command.
    pub fn pop_next(&mut self) -> (next: Option<T>)
        requires
            old(self).wf(),
        ensures
            final(self).wf(),
            final(self).spec_capacity() == old(self).spec_capacity(),
            final(self).is_closed() == old(self).is_closed(),
            old(self).items().len() == 0 ==> next is None && final(self).items() == old(self).items(),
            old(self).items().len() > 0 ==> next == Some(old(self).items()[0]) && final(self).items() == old(self).items().drop_first(),
    {
        self.queue.pop_front()
    }

    /// Refuse every later command; queued commands stay.
    pub fn close(&mut self)
        requires
            old(self).wf(),
        ensures
            final(self).wf(),
            final(self).is_closed(),
            final(self).items() == old(self).items(),
            final(self).spec_capacity() == old(self).spec_capacity(),
    {
        self.closed = true;
    }
}

/// Sending a frame never grows the input queue past its capacity; an
/// accepted frame becomes the newest entry and every older frame but the
/// newest stays in order; a refused frame leaves the queue unchanged.
pub proof fn lemma_enqueue_keeps_older_frames<T>(items: Seq<T>, capacity: nat, closed: bool, frame: T)
    requires
        items.len() <= capacity,
    ensures
        spec_enqueue(items, capacity, closed, frame).0.len() <= capacity,
        spec_enqueue(items, capacity, closed, frame).1 is Ok ==> {
            let after = spec_enqueue(items, capacity, closed, frame).0;
            &&& after.last() == frame
            &&& after.drop_last() == items.subrange(0, after.len() - 1)
        },
        spec_enqueue(items, capacity, closed, frame).1 is Err ==> spec_enqueue(
            items,
            capacity,
            closed,
            frame,
        ).0 == items,
{
    let after = spec_enqueue(items, capacity, closed, frame).0;
    if !closed && capacity > 0 {
        if items.len() >= capacity {
            assert(after.drop_last() =~= items.subrange(0, after.len() - 1));
        } else {
            assert(after.drop_last() =~= items.subrange(0, after.len() - 1));
        }
    }
}

/// Offering a command never grows the reverse queue past its capacity; an
/// admitted command becomes the newest entry behind the newest of the
/// commands already queued, in their order (all of them, or all but the
/// oldest when the oldest was dropped for it); a command that is not
/// admitted leaves the queue unchanged.
pub proof fn lemma_offer_keeps_fifo_order<T>(
    items: Seq<T>,
    capacity: nat,
    closed: bool,
    command: T,
    policy: BackpressurePolicy,
)
    requires
        items.len() <= capacity,
    ensures
        spec_offer(items, capacity, closed, command, policy).0.len() <= capacity,
        ({
            let (after, admission) = spec_offer(items, capacity, closed, command, policy);
            admission is Enqueued || admission is ReplacedOldest ==> {
                &&& after.last() == command
                &&& after.drop_last() == items.subrange(
                    items.len() - (after.len() - 1),
                    items.len() as int,
                )
            }
        }),
        ({
            let (after, admission) = spec_offer(items, capacity, closed, command, policy);
            !(admission is Enqueued || admission is ReplacedOldest) ==> after == items
        }),
{
    let (after, admission) = spec_offer(items, capacity, closed, command, policy);
    if admission is Enqueued || admission is ReplacedOldest {
        assert(after.drop_last() =~= items.subrange(
            items.len() - (after.len() - 1),
            items.len() as int,
        ));
    }
}

/// The reason an out-of-order input sequence is refused with.
pub open spec fn out_of_order_reason(sequence: u64) -> Seq<char> {
    "sequence "@ + decimal(sequence as nat) + " is not greater than the previous sequence"@
}

/// The session requires monotonic sequences and `sequence` does not
/// exceed the last accepted one.
pub open spec fn out_of_order(require_monotonic: bool, last: Option<u64>, sequence: u64) -> bool {
    require_monotonic && match last {
        Some(previous) => sequence <= previous,
        None => false,
    }
}

/// `result` refuses the input with exactly `reason`.
pub open spec fn refused_with(result: Result<(), SessionSendError>, reason: Seq<char>) -> bool {
    &&& result matches Err(SessionSendError::InvalidInput { reason: text })
    &&& text@ == reason
}

/// Refuse a sequence number that does not exceed the last accepted one,
/// when the session requires monotonic sequences.
pub fn validate_monotonic_sequence(require_monotonic: bool, last: Option<u64>, sequence: u64) -> (result:
    Result<(), SessionSendError>)
    ensures
        out_of_order(require_monotonic, last, sequence) ==> refused_with(
            result,
            out_of_order_reason(sequence),
        ),
        !out_of_order(require_monotonic, last, sequence) ==> result is Ok,
{
    if require_monotonic {
        if let Some(previous) = last {
            if sequence <= previous {
                let mut reason = String::from_str("sequence ");
                push_decimal(&mut reason, sequence);
                reason.append(" is not greater than the previous sequence");
                return Err(SessionSendError::InvalidInput { reason });
            }
        }
    }
    Ok(())
}

pub open spec fn accepts(kinds: Seq<AcceptedUpdateKind>, kind: AcceptedUpdateKind) -> bool {
    exists|i: int| 0 <= i < kinds.len() && kinds[i] == kind
}

fn contains_kind(kinds: &[AcceptedUpdateKind], kind: AcceptedUpdateKind) -> (found: bool)
    ensures
        found == accepts(kinds@, kind),
{
    let mut index: usize = 0;
    while index < kinds.len()
        invariant
            0 <= index <= kinds@.len(),
            forall|k: int| 0 <= k < index ==> kinds@[k] != kind,
        decreases kinds@.len() - index,
    {
        if kinds[index] == kind {
            return true;
        }
        index = index + 1;
    }
    false
}

/// Check a full input frame against the session's input policy: the
/// policy must accept full frames (when `full_frame`), then the sequence
/// must be in order.
pub fn validate_frame_policy(
    accepted: &[AcceptedUpdateKind],
    require_monotonic: bool,
    last: Option<u64>,
    full_frame: bool,
    sequence: u64,
) -> (result: Result<(), SessionSendError>)
    ensures
        full_frame && !accepts(accepted@, AcceptedUpdateKind::Frame) ==> refused_with(
            result,
            "compiled session options reject full-frame updates"@,
        ),
        !(full_frame && !accepts(accepted@, AcceptedUpdateKind::Frame)) && out_of_order(
            require_monotonic,
            last,
            sequence,
        ) ==> refused_with(result, out_of_order_reason(sequence)),
        !(full_frame && !accepts(accepted@, AcceptedUpdateKind::Frame)) && !out_of_order(
            require_monotonic,
            last,
            sequence,
        ) ==> result is Ok,
{
    if full_frame && !contains_kind(accepted, AcceptedUpdateKind::Frame) {
        return Err(
            SessionSendError::InvalidInput {
                reason: String::from_str("compiled session options reject full-frame updates"),
            },
        );
    }
    validate_monotonic_sequence(require_monotonic, last, sequence)
}

/// Check a partial (delta) input update against the session's input
/// policy: the policy must accept deltas, then the sequence must be in
/// order.
pub fn validate_delta_policy(
    accepted: &[AcceptedUpdateKind],
    require_monotonic: bool,
    last: Option<u64>,
    sequence: u64,
) -> (result: Result<(), SessionSendError>)
    ensures
        !accepts(accepted@, AcceptedUpdateKind::Delta) ==> refused_with(
            result,
            "compiled session options reject delta updates"@,
        ),
        accepts(accepted@, AcceptedUpdateKind::Delta) && out_of_order(
            require_monotonic,
            last,
            sequence,
        ) ==> refused_with(result, out_of_order_reason(sequence)),
        accepts(accepted@, AcceptedUpdateKind::Delta) && !out_of_order(
            require_monotonic,
            last,
            sequence,
        ) ==> result is Ok,
{
    if !contains_kind(accepted, AcceptedUpdateKind::Delta) {
        return Err(
            SessionSendError::InvalidInput {
                reason: String::from_str("compiled session options reject delta updates"),
            },
        );
    }
    validate_monotonic_sequence(require_monotonic, last, sequence)
}

} // verus!
