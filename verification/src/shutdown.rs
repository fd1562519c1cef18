//! The order in which the stages stop: first the producers, then the workers
//! run dry, and only then the sinks are closed.

use vstd::prelude::*;

verus! {

/// How far the shutdown has come.
#[derive(Clone, Copy, PartialEq, Eq, Structural, Debug)]
pub enum Phase {
    /// Nothing asked the process to stop.
    Running,
    /// The producers were told to stop. `producers` of them are still in a
    /// tick; `workers` tells whether the workers are done.
    Stopping { producers: usize, workers: bool },
    /// The sinks were told to close. `sinks` of them are still draining.
    Closing { sinks: usize },
    /// Every stage has stopped.
    Done,
}

/// What the coordinator is told.
#[derive(Clone, Copy, PartialEq, Eq, Structural, Debug)]
pub enum Signal {
    /// The process is asked to stop.
    Cancel,
    /// A producer has finished its last tick.
    ProducerStopped,
    /// The queues of the workers are closed and empty, and no worker is busy.
    WorkersDone,
    /// A sink has written what it held and closed its stream.
    SinkDrained,
}

/// What the coordinator orders.
#[derive(Clone, Copy, PartialEq, Eq, Structural, Debug)]
pub enum Order {
    /// Nothing yet.
    Wait,
    /// Tell every producer to stop scheduling ticks.
    CancelProducers,
    /// Send `Close` to every sink.
    CloseSinks,
    /// Every stage has stopped: the process may end.
    Finish,
}

/// The coordinator of a process with `producers` producers and `sinks`
/// sinks.
#[derive(Clone, Copy, PartialEq, Eq, Structural, Debug)]
pub struct Coordinator {
    pub producers: usize,
    pub sinks: usize,
    pub phase: Phase,
}

/// The phase that follows `Stopping` once `producers` are still in a tick and
/// `workers` tells whether the workers are done, and the order that goes with
/// it: the sinks are closed only when no producer is left and the workers are
/// done.
pub open spec fn after_stopping(c: Coordinator, producers: usize, workers: bool) -> (Phase, Order) {
    if producers == 0 && workers {
        if c.sinks == 0 {
            (Phase::Done, Order::Finish)
        } else {
            (Phase::Closing { sinks: c.sinks }, Order::CloseSinks)
        }
    } else {
        (Phase::Stopping { producers, workers }, Order::Wait)
    }
}

/// The phase after the coordinator was told `signal`, and what it orders.
/// A signal that does not belong to the phase changes nothing.
pub open spec fn step(c: Coordinator, signal: Signal) -> (Phase, Order) {
    match (c.phase, signal) {
        (Phase::Running, Signal::Cancel) => (
            Phase::Stopping { producers: c.producers, workers: false },
            Order::CancelProducers,
        ),
        (Phase::Stopping { producers, workers }, Signal::ProducerStopped) => if producers > 0 {
            after_stopping(c, (producers - 1) as usize, workers)
        } else {
            (c.phase, Order::Wait)
        },
        (Phase::Stopping { producers, workers }, Signal::WorkersDone) => if !workers {
            after_stopping(c, producers, true)
        } else {
            (c.phase, Order::Wait)
        },
        (Phase::Closing { sinks }, Signal::SinkDrained) => if sinks <= 1 {
            (Phase::Done, Order::Finish)
        } else {
            (Phase::Closing { sinks: (sinks - 1) as usize }, Order::Wait)
        },
        _ => (c.phase, Order::Wait),
    }
}

impl Coordinator {
    /// The coordinator of a running process.
    pub fn new(producers: usize, sinks: usize) -> (c: Coordinator)
        ensures
            c == (Coordinator { producers, sinks, phase: Phase::Running }),
    {
        Coordinator { producers, sinks, phase: Phase::Running }
    }

    /// Takes a signal and says what to do next.
    pub fn shutdown(&mut self, signal: Signal) -> (order: Order)
        ensures
            (final(self).phase, order) == step(*old(self), signal),
            final(self).producers == old(self).producers,
            final(self).sinks == old(self).sinks,
    {
        let (phase, order) = match (self.phase, signal) {
            (Phase::Running, Signal::Cancel) => (
                Phase::Stopping { producers: self.producers, workers: false },
                Order::CancelProducers,
            ),
            (Phase::Stopping { producers, workers }, Signal::ProducerStopped) => {
                if producers > 0 {
                    self.settle(producers - 1, workers)
                } else {
                    (self.phase, Order::Wait)
                }
            },
            (Phase::Stopping { producers, workers }, Signal::WorkersDone) => {
                if !workers {
                    self.settle(producers, true)
                } else {
                    (self.phase, Order::Wait)
                }
            },
            (Phase::Closing { sinks }, Signal::SinkDrained) => {
                if sinks <= 1 {
                    (Phase::Done, Order::Finish)
                } else {
                    (Phase::Closing { sinks: sinks - 1 }, Order::Wait)
                }
            },
            _ => (self.phase, Order::Wait),
        };
        self.phase = phase;
        order
    }

    /// The phase that follows `Stopping`, and the order that goes with it.
    fn settle(&self, producers: usize, workers: bool) -> (r: (Phase, Order))
        ensures
            r == after_stopping(*self, producers, workers),
    {
        if producers == 0 && workers {
            if self.sinks == 0 {
                (Phase::Done, Order::Finish)
            } else {
                (Phase::Closing { sinks: self.sinks }, Order::CloseSinks)
            }
        } else {
            (Phase::Stopping { producers, workers }, Order::Wait)
        }
    }
}

/// The coordinator after it was told `signal`.
pub open spec fn next(c: Coordinator, signal: Signal) -> Coordinator {
    Coordinator { phase: step(c, signal).0, ..c }
}

/// How often `signals` holds `signal`.
pub open spec fn count(signals: Seq<Signal>, signal: Signal) -> nat
    decreases signals.len(),
{
    if signals.len() == 0 {
        0
    } else {
        count(signals.drop_last(), signal) + if signals.last() == signal {
            1nat
        } else {
            0nat
        }
    }
}

/// The coordinator after it was told `signals`, one after the other.
pub open spec fn after(c: Coordinator, signals: Seq<Signal>) -> Coordinator
    decreases signals.len(),
{
    if signals.len() == 0 {
        c
    } else {
        next(after(c, signals.drop_last()), signals.last())
    }
}

/// What the phase of a coordinator that started running tells of the
/// signals `signals` that it was told so far.
pub open spec fn accounted(c: Coordinator, signals: Seq<Signal>) -> bool {
    match c.phase {
        Phase::Running => true,
        Phase::Stopping { producers, workers } => {
            &&& count(signals, Signal::Cancel) > 0
            &&& producers + count(signals, Signal::ProducerStopped) >= c.producers
            &&& workers ==> count(signals, Signal::WorkersDone) > 0
        },
        _ => {
            &&& count(signals, Signal::Cancel) > 0
            &&& count(signals, Signal::ProducerStopped) >= c.producers
            &&& count(signals, Signal::WorkersDone) > 0
        },
    }
}

/// The phase accounts for the signals, whatever they were.
pub proof fn lemma_accounted(producers: usize, sinks: usize, signals: Seq<Signal>)
    ensures
        accounted(after(Coordinator { producers, sinks, phase: Phase::Running }, signals), signals),
    decreases signals.len(),
{
    if signals.len() > 0 {
        let front = signals.drop_last();
        let start = Coordinator { producers, sinks, phase: Phase::Running };
        lemma_accounted(producers, sinks, front);
        let before = after(start, front);
        lemma_configuration(start, front);
        assert(after(start, signals) == next(before, signals.last()));
        assert(count(signals, Signal::Cancel) >= count(front, Signal::Cancel));
        assert(count(signals, Signal::ProducerStopped) >= count(front, Signal::ProducerStopped));
        assert(count(signals, Signal::WorkersDone) >= count(front, Signal::WorkersDone));
    }
}

/// Signals change the phase only, never the numbers of producers and sinks.
pub proof fn lemma_configuration(c: Coordinator, signals: Seq<Signal>)
    ensures
        after(c, signals).producers == c.producers,
        after(c, signals).sinks == c.sinks,
    decreases signals.len(),
{
    if signals.len() > 0 {
        lemma_configuration(c, signals.drop_last());
    }
}

/// The sinks are closed only after the producers were stopped: when a
/// running process is told `signals` and then a signal that makes the
/// coordinator order the sinks closed, the process was asked to stop, each
/// of its producers has reported its last tick, and the workers are done.
pub proof fn lemma_sinks_close_last(
    producers: usize,
    sinks: usize,
    signals: Seq<Signal>,
    signal: Signal,
)
    requires
        step(
            after(Coordinator { producers, sinks, phase: Phase::Running }, signals),
            signal,
        ).1 == Order::CloseSinks,
    ensures
        count(signals.push(signal), Signal::Cancel) > 0,
        count(signals.push(signal), Signal::ProducerStopped) >= producers,
        count(signals.push(signal), Signal::WorkersDone) > 0,
{
    let start = Coordinator { producers, sinks, phase: Phase::Running };
    lemma_accounted(producers, sinks, signals);
    lemma_configuration(start, signals);
    assert(signals.push(signal).drop_last() =~= signals);
}

} // verus!
