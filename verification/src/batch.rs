//! The batch sink: the decisions of the task that writes records of one type
//! to the store through a stream that it closes and reopens from time to time.
//!
//! The task itself waits on a queue and on a clock, which is no business of
//! this module. It hands over what its wait brought, and is told what to do
//! with the stream.

use vstd::prelude::*;

verus! {

/// How many messages wait in the queue of a sink at most.
pub const QUEUE_CAPACITY: usize = 1024;

/// The seconds that a sink waits for a message before it counts as idle.
pub const IDLE_TIMEOUT_SECS: u64 = 10;

/// The number of pending rows at which a sink rotates its stream.
pub const MAX_PENDING: u64 = 10000;

/// What a producer sends to a sink.
pub enum BatchMessage<T> {
    /// A record to write.
    Insert(T),
    /// No record will follow: finish and stop.
    Close,
}

/// What one wait of the sink brought.
pub enum Wake<T> {
    /// A message arrived.
    Message(BatchMessage<T>),
    /// Every producer is gone and the queue is empty.
    Disconnected,
    /// Nothing arrived within the idle timeout.
    Idle,
}

/// What the sink does after one wait. The parts are carried out in the order
/// of the fields.
pub struct Turn<T> {
    /// The record to write to the open stream, if any.
    pub write: Option<T>,
    /// Whether to close the open stream and open a new one.
    pub rotate: bool,
    /// Whether to close the open stream and end the task.
    pub stop: bool,
}

/// The state of a sink: how many rows went to the open stream, and at how
/// many the stream is rotated.
#[derive(Clone, Copy, PartialEq, Eq, Structural, Debug)]
pub struct Sink {
    pub pending: u64,
    pub max: u64,
}

/// The number of rows in the open stream after a wait that brought `wake`.
pub open spec fn pending_after<T>(s: Sink, wake: Wake<T>) -> u64 {
    match wake {
        Wake::Message(BatchMessage::Insert(_)) => if s.pending + 1 >= s.max {
            0
        } else {
            (s.pending + 1) as u64
        },
        Wake::Message(BatchMessage::Close) => s.pending,
        Wake::Disconnected => s.pending,
        Wake::Idle => 0,
    }
}

/// What the sink does after a wait that brought `wake`: it writes what was
/// inserted; it rotates when the stream has reached its maximum, or when it
/// was idle with rows pending; it stops when it is told to close or when no
/// producer is left.
pub open spec fn turn_after<T>(s: Sink, wake: Wake<T>) -> Turn<T> {
    match wake {
        Wake::Message(BatchMessage::Insert(v)) => Turn {
            write: Some(v),
            rotate: s.pending + 1 >= s.max,
            stop: false,
        },
        Wake::Message(BatchMessage::Close) => Turn { write: None, rotate: false, stop: true },
        Wake::Disconnected => Turn { write: None, rotate: false, stop: true },
        Wake::Idle => Turn { write: None, rotate: s.pending > 0, stop: false },
    }
}

impl Sink {
    /// A sink with a fresh stream that rotates at `max` rows.
    pub fn new(max: u64) -> (s: Sink)
        ensures
            s == (Sink { pending: 0, max }),
    {
        Sink { pending: 0, max }
    }

    /// A sink with a fresh stream that rotates at [`MAX_PENDING`] rows.
    pub fn standard() -> (s: Sink)
        ensures
            s == (Sink { pending: 0, max: MAX_PENDING }),
    {
        Sink { pending: 0, max: MAX_PENDING }
    }

    /// Decides what to do after one wait, and counts the rows of the open
    /// stream.
    pub fn consume<T>(&mut self, wake: Wake<T>) -> (turn: Turn<T>)
        ensures
            turn == turn_after(*old(self), wake),
            final(self).pending == pending_after(*old(self), wake),
            final(self).max == old(self).max,
    {
        match wake {
            Wake::Message(BatchMessage::Insert(v)) => {
                let full = self.pending >= u64::MAX - 1 || self.pending + 1 >= self.max;
                if full {
                    self.pending = 0;
                } else {
                    self.pending = self.pending + 1;
                }
                Turn { write: Some(v), rotate: full, stop: false }
            },
            Wake::Message(BatchMessage::Close) => Turn { write: None, rotate: false, stop: true },
            Wake::Disconnected => Turn { write: None, rotate: false, stop: true },
            Wake::Idle => {
                let rotate = self.pending > 0;
                self.pending = 0;
                Turn { write: None, rotate, stop: false }
            },
        }
    }
}

/// The state of the sink after a wait that brought `wake`.
pub open spec fn sink_after<T>(s: Sink, wake: Wake<T>) -> Sink {
    Sink { pending: pending_after(s, wake), max: s.max }
}

/// The records that the sink writes, in order, when its waits bring `wakes`
/// one after the other, up to the wait that stops it.
pub open spec fn written<T>(s: Sink, wakes: Seq<Wake<T>>) -> Seq<T>
    decreases wakes.len(),
{
    if wakes.len() == 0 {
        Seq::empty()
    } else {
        let turn = turn_after(s, wakes[0]);
        if turn.stop {
            Seq::empty()
        } else {
            let rest = written(sink_after(s, wakes[0]), wakes.drop_first());
            match turn.write {
                Some(v) => seq![v] + rest,
                None => rest,
            }
        }
    }
}

/// The records that were inserted, in order, before the first `Close` or the
/// loss of the producers.
pub open spec fn accepted<T>(wakes: Seq<Wake<T>>) -> Seq<T>
    decreases wakes.len(),
{
    if wakes.len() == 0 {
        Seq::empty()
    } else {
        match wakes[0] {
            Wake::Message(BatchMessage::Insert(v)) => seq![v] + accepted(wakes.drop_first()),
            Wake::Idle => accepted(wakes.drop_first()),
            _ => Seq::empty(),
        }
    }
}

/// Every record that the sink accepts before it is closed is written exactly
/// once, in the order of arrival, whatever the state of the sink, however the
/// idle periods fall and wherever the stream is rotated.
pub proof fn lemma_written_is_accepted<T>(s: Sink, wakes: Seq<Wake<T>>)
    ensures
        written(s, wakes) == accepted(wakes),
    decreases wakes.len(),
{
    if wakes.len() > 0 {
        lemma_written_is_accepted(sink_after(s, wakes[0]), wakes.drop_first());
    }
}

/// The stream is rotated after a wait exactly when the wait was idle with
/// rows pending, or brought the record that fills the stream to its maximum;
/// after a rotation no row is pending.
pub proof fn lemma_rotation<T>(s: Sink, wake: Wake<T>)
    ensures
        turn_after(s, wake).rotate <==> (wake is Idle && s.pending > 0) || (wake matches Wake::Message(
            BatchMessage::Insert(_),
        ) && s.pending + 1 >= s.max),
        turn_after(s, wake).rotate ==> pending_after(s, wake) == 0,
{
}

} // verus!
