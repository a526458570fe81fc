use inserter::sink::FailSink;
use inserter::sink::VecObserver;
use inserter::sink::VecSink;
use inserter::Inserter;
use inserter::InserterError;

#[derive(Clone, Debug, PartialEq)]
struct TestRow {
    id: u64,
}

#[test]
fn test_basic_insert() {
    let mut ins = Inserter::new(VecSink::new()).with_max_rows(2);

    ins.write(&TestRow { id: 1 }, 0);
    ins.write(&TestRow { id: 2 }, 0);

    let stats = ins.commit(0).unwrap();
    assert_eq!(stats.rows, 2);

    let batches = &ins.sink().batches;
    assert_eq!(batches.len(), 1);
    assert_eq!(batches[0].len(), 2);
}

#[test]
fn test_force_commit() {
    let mut ins = Inserter::new(VecSink::new()).with_max_rows(100);

    ins.write(&TestRow { id: 1 }, 0);

    let stats = ins.force_commit(0).unwrap();
    assert_eq!(stats.rows, 1);
}

#[test]
fn test_end() {
    let mut ins = Inserter::new(VecSink::new()).with_max_rows(100);

    ins.write(&TestRow { id: 1 }, 0);
    ins.write(&TestRow { id: 2 }, 0);
    ins.write(&TestRow { id: 3 }, 0);

    let stats = ins.end().unwrap();
    assert_eq!(stats.rows, 3);
    assert_eq!(stats.transactions, 1);
}

#[test]
fn test_commit_callback() {
    let mut ins = Inserter::new(VecSink::new())
        .with_max_rows(1)
        .with_commit_callback(VecObserver::new());

    ins.write(&TestRow { id: 1 }, 0);
    ins.commit(0).unwrap();

    let observer = ins.observer().as_ref().unwrap();
    assert!(observer.seen.len() == 1);
}

#[test]
fn test_no_commit_when_below_limit() {
    let mut ins = Inserter::new(VecSink::new()).with_max_rows(10);

    ins.write(&TestRow { id: 1 }, 0);
    ins.write(&TestRow { id: 2 }, 0);

    let stats = ins.commit(0).unwrap();
    assert_eq!(stats.rows, 0);
    assert_eq!(ins.pending().rows, 2);

    let batches = &ins.sink().batches;
    assert!(batches.is_empty());
}

#[test]
fn test_single_transaction_across_consecutive_writes() {
    let mut ins = Inserter::new(VecSink::new());

    for id in 0..5u64 {
        ins.write(&TestRow { id }, 0);
    }

    assert_eq!(ins.pending().rows, 5);
    assert_eq!(ins.pending().transactions, 1);
}

#[test]
fn test_new_transaction_after_flush() {
    let mut ins = Inserter::new(VecSink::new()).with_max_rows(100);

    ins.write(&TestRow { id: 1 }, 0);
    ins.write(&TestRow { id: 2 }, 0);
    ins.force_commit(0).unwrap();
    ins.write(&TestRow { id: 3 }, 0);

    let stats = ins.end().unwrap();
    assert_eq!(stats.rows, 3);
    assert_eq!(stats.transactions, 2);
}

#[test]
fn test_force_commit_empty_buffer() {
    let mut ins = Inserter::new(VecSink::<TestRow>::new())
        .with_max_rows(100)
        .with_commit_callback(VecObserver::new());

    let stats = ins.force_commit(0).unwrap();
    assert_eq!(stats.rows, 0);
    assert_eq!(stats.transactions, 0);
    assert!(ins.sink().batches.is_empty());
    assert!(ins.observer().as_ref().unwrap().seen.is_empty());
}

#[test]
fn test_end_empty_buffer() {
    let ins = Inserter::new(VecSink::<TestRow>::new());
    let stats = ins.end().unwrap();
    assert_eq!(stats.rows, 0);
    assert_eq!(stats.transactions, 0);
}

#[test]
fn test_time_triggered_commit() {
    let mut ins = Inserter::new(VecSink::new()).with_period(100);

    ins.write(&TestRow { id: 1 }, 0);

    let early = ins.commit(50).unwrap();
    assert_eq!(early.rows, 0);
    assert!(ins.sink().batches.is_empty());
    assert_eq!(ins.pending().rows, 1);

    let stats = ins.commit(100).unwrap();
    assert_eq!(stats.rows, 1);
    assert_eq!(ins.sink().batches.len(), 1);
}

#[test]
fn test_time_left_through_inserter() {
    let mut ins = Inserter::new(VecSink::new()).with_period(100);

    assert!(ins.time_left(0).is_none());
    ins.write(&TestRow { id: 1 }, 0);
    assert_eq!(ins.time_left(0), Some(100));
    assert_eq!(ins.time_left(40), Some(60));
    assert_eq!(ins.time_left(250), Some(0));
}

#[test]
fn test_sink_failure_propagates() {
    let failing: FailSink<String> = FailSink { failure: String::from("sink refused the batch") };
    let mut ins = Inserter::new(failing).with_max_rows(1);

    ins.write(&TestRow { id: 1 }, 0);

    let err = ins.commit(0).unwrap_err();
    assert_eq!(err.into_inner(), String::from("sink refused the batch"));
    assert_eq!(ins.pending().rows, 1);
    assert_eq!(ins.pending().transactions, 1);
}

#[test]
fn test_error_round_trip() {
    let err: InserterError<u64> = InserterError::new(42);
    assert_eq!(err.into_inner(), 42);
    let from_err: InserterError<u64> = InserterError::from(7);
    assert_eq!(from_err.into_inner(), 7);
}
