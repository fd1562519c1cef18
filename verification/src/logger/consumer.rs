//! The messages that the telemetry bridge sends to its sink, and what the
//! sink does with them.

use crate::batch::BatchMessage;
use crate::batch::Sink;
use crate::batch::Turn;
use crate::batch::Wake;
use crate::batch::pending_after;
use crate::batch::turn_after;
use crate::logger::entity::LogEntity;
use vstd::prelude::*;

verus! {

/// How many rows wait between the bridge and its sink at most. An event that
/// finds the queue full is dropped.
pub const LOG_QUEUE_CAPACITY: usize = 1024;

/// What the bridge sends to its sink.
pub enum LogMessage {
    /// A row to write.
    Entity(LogEntity),
    /// No row will follow: finish and stop.
    Shutdown,
}

impl From<LogEntity> for LogMessage {
    fn from(v: LogEntity) -> (m: LogMessage) {
        LogMessage::Entity(v)
    }
}

impl vstd::std_specs::convert::FromSpecImpl<LogEntity> for LogMessage {
    open spec fn obeys_from_spec() -> bool {
        true
    }

    open spec fn from_spec(v: LogEntity) -> LogMessage {
        LogMessage::Entity(v)
    }
}

/// What one wait of the log sink brought.
pub enum LogWake {
    /// A message arrived.
    Message(LogMessage),
    /// Every sender is gone and the queue is empty.
    Disconnected,
    /// Nothing arrived within the idle timeout.
    Idle,
}

/// The same wait, in the terms of the batch sink.
pub open spec fn as_wake(wake: LogWake) -> Wake<LogEntity> {
    match wake {
        LogWake::Message(LogMessage::Entity(row)) => Wake::Message(BatchMessage::Insert(row)),
        LogWake::Message(LogMessage::Shutdown) => Wake::Message(BatchMessage::Close),
        LogWake::Disconnected => Wake::Disconnected,
        LogWake::Idle => Wake::Idle,
    }
}

/// Decides what the log sink does after one wait: what a batch sink does
/// when a row is an insert and a shutdown is a close.
pub fn consume(sink: &mut Sink, wake: LogWake) -> (turn: Turn<LogEntity>)
    ensures
        turn == turn_after(*old(sink), as_wake(wake)),
        final(sink).pending == pending_after(*old(sink), as_wake(wake)),
        final(sink).max == old(sink).max,
{
    let wake = match wake {
        LogWake::Message(LogMessage::Entity(row)) => Wake::Message(BatchMessage::Insert(row)),
        LogWake::Message(LogMessage::Shutdown) => Wake::Message(BatchMessage::Close),
        LogWake::Disconnected => Wake::Disconnected,
        LogWake::Idle => Wake::Idle,
    };
    sink.consume(wake)
}

} // verus!
