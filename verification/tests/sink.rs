use collector::batch::BatchMessage;
use collector::batch::Sink;
use collector::batch::Wake;
use collector::batch::MAX_PENDING;
use collector::logger::consumer::consume;
use collector::logger::consumer::LogMessage;
use collector::logger::consumer::LogWake;
use collector::logger::entity::LogEntity;
use collector::logger::layer::ClickhouseSpan;
use collector::logger::level_serializer::Level;
use collector::logger::visitor::ClickhouseVisitor;

fn run(sink: &mut Sink, wakes: Vec<Wake<u32>>) -> (Vec<u32>, usize, bool) {
    let mut rows = Vec::new();
    let mut rotations = 0;
    for wake in wakes {
        let turn = sink.consume(wake);
        if let Some(v) = turn.write {
            rows.push(v);
        }
        if turn.rotate {
            rotations += 1;
        }
        if turn.stop {
            return (rows, rotations, true);
        }
    }
    (rows, rotations, false)
}

fn insert(v: u32) -> Wake<u32> {
    Wake::Message(BatchMessage::Insert(v))
}

#[test]
fn three_items_then_close_write_exactly_three_rows() {
    let mut sink = Sink::standard();
    let wakes = vec![insert(1), insert(2), insert(3), Wake::Message(BatchMessage::Close), insert(4)];
    let (rows, rotations, stopped) = run(&mut sink, wakes);
    assert_eq!(rows, vec![1, 2, 3]);
    assert_eq!(rotations, 0);
    assert!(stopped);
}

#[test]
fn idle_with_pending_rows_rotates_once() {
    let mut sink = Sink::new(10);
    let (rows, rotations, stopped) = run(&mut sink, vec![insert(1), insert(2), Wake::Idle, Wake::Idle, insert(3)]);
    assert_eq!(rows, vec![1, 2, 3]);
    assert_eq!(rotations, 1);
    assert!(!stopped);
    assert_eq!(sink.pending, 1);
}

#[test]
fn idle_without_pending_rows_does_nothing() {
    let mut sink = Sink::new(10);
    let turn = sink.consume(Wake::<u32>::Idle);
    assert!(turn.write.is_none() && !turn.rotate && !turn.stop);
    assert_eq!(sink.pending, 0);
}

#[test]
fn reaching_the_maximum_rotates() {
    let mut sink = Sink::new(3);
    let mut rotations = Vec::new();
    for v in 0..7u32 {
        let turn = sink.consume(insert(v));
        assert_eq!(turn.write, Some(v));
        rotations.push(turn.rotate);
    }
    assert_eq!(rotations, vec![false, false, true, false, false, true, false]);
    assert_eq!(sink.pending, 1);
}

#[test]
fn standard_sink_rotates_at_ten_thousand() {
    let mut sink = Sink::standard();
    assert_eq!((sink.pending, sink.max), (0, MAX_PENDING));
    assert_eq!(MAX_PENDING, 10000);
    for v in 0..9999u32 {
        assert!(!sink.consume(insert(v)).rotate);
    }
    assert!(sink.consume(insert(9999)).rotate);
    assert_eq!(sink.pending, 0);
}

#[test]
fn lost_producers_stop_the_sink() {
    let mut sink = Sink::new(5);
    let turn = sink.consume(Wake::<u32>::Disconnected);
    assert!(turn.stop && !turn.rotate && turn.write.is_none());
}

#[test]
fn counter_at_its_limit_does_not_overflow() {
    let mut sink = Sink { pending: u64::MAX, max: u64::MAX };
    let turn = sink.consume(insert(1));
    assert!(turn.rotate);
    assert_eq!(sink.pending, 0);
}

fn row(message: &str) -> LogEntity {
    let mut visitor = ClickhouseVisitor::new();
    visitor.record_debug("message", message);
    LogEntity::try_from_at(visitor, ClickhouseSpan::new(), Level::Info, 1, 2).unwrap()
}

#[test]
fn log_sink_is_a_batch_sink() {
    let mut sink = Sink::new(2);
    let turn = consume(&mut sink, LogWake::Message(LogMessage::from(row("a"))));
    assert_eq!(turn.write.map(|r| r.message), Some("a".to_string()));
    assert!(!turn.rotate && !turn.stop);
    let turn = consume(&mut sink, LogWake::Message(LogMessage::Entity(row("b"))));
    assert!(turn.rotate);
    let turn = consume(&mut sink, LogWake::Idle);
    assert!(!turn.rotate && !turn.stop);
    let turn = consume(&mut sink, LogWake::Message(LogMessage::Shutdown));
    assert!(turn.stop && turn.write.is_none());
    let turn = consume(&mut sink, LogWake::Disconnected);
    assert!(turn.stop);
}
