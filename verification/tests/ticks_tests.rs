use inserter::quantities::Quantities;
use inserter::Ticks;

#[test]
fn test_no_period() {
    let ticks = Ticks::new();
    assert!(!ticks.reached(0));
    assert!(ticks.time_left(0).is_none());
}

#[test]
fn test_with_period() {
    let mut ticks = Ticks::new().with_period(10);
    ticks.start(0);

    assert!(!ticks.reached(0));
    assert!(ticks.time_left(0).is_some());

    assert!(ticks.reached(15));
}

#[test]
fn test_reschedule() {
    let mut ticks = Ticks::new().with_period(10);
    ticks.start(0);

    assert!(ticks.reached(15));

    ticks.reschedule(15);
    assert!(!ticks.reached(15));
}

#[test]
fn test_start_is_idempotent() {
    let mut ticks = Ticks::new().with_period(10);
    ticks.start(0);
    ticks.start(7);

    assert_eq!(ticks.time_left(0), Some(10));
}

#[test]
fn test_exact_period_without_bias() {
    let mut ticks = Ticks::new().with_period(1000);
    ticks.reschedule(500);
    assert_eq!(ticks.time_left(500), Some(1000));
}

#[test]
fn test_jitter_stays_within_bias_bounds() {
    // A ten percent bias: every rescheduled deadline must land within
    // [900, 1100] units of the reschedule instant.
    for _ in 0..200 {
        let mut ticks = Ticks::new().with_period(1000).with_bias(100_000);
        ticks.reschedule(0);
        let left = ticks.time_left(0).unwrap();
        assert!(left >= 900);
        assert!(left <= 1100);
    }
}

#[test]
fn test_quantities_zero_and_is_empty() {
    let zero = Quantities::new_zero();
    assert!(zero.is_empty());
    assert_eq!(zero.rows, 0);
    assert_eq!(zero.transactions, 0);
    assert_eq!(Quantities::default(), zero);

    let some = Quantities { rows: 3, transactions: 1 };
    assert!(!some.is_empty());
}
