use solana_tps::rate::{calculate_tps, elapsed_seconds, Rate};

fn as_float(rate: Rate) -> f64 {
    rate.transactions as f64 / rate.seconds as f64
}

#[test]
fn elapsed_is_the_difference() {
    assert_eq!(elapsed_seconds(940, 1000), 60);
    assert_eq!(elapsed_seconds(-10, 10), 20);
}

#[test]
fn elapsed_is_never_negative() {
    assert_eq!(elapsed_seconds(1000, 940), 0);
    assert_eq!(elapsed_seconds(5, 5), 0);
    assert_eq!(elapsed_seconds(i64::MAX, i64::MIN), 0);
}

#[test]
fn elapsed_is_capped_at_the_largest_timestamp() {
    assert_eq!(elapsed_seconds(i64::MIN, i64::MAX), i64::MAX as u64);
    assert_eq!(elapsed_seconds(-1, i64::MAX), i64::MAX as u64);
    assert_eq!(elapsed_seconds(0, i64::MAX), i64::MAX as u64);
    assert_eq!(elapsed_seconds(1, i64::MAX), i64::MAX as u64 - 1);
}

#[test]
fn rate_is_count_over_elapsed() {
    let rate = calculate_tps(940, 1000, 5);
    assert_eq!(rate, Rate { transactions: 5, seconds: 60 });
    assert!((as_float(rate) - 0.0833).abs() < 0.0001);
    assert_eq!(as_float(calculate_tps(0, 300, 1500)), 5.0);
}

#[test]
fn zero_elapsed_gives_zero_rate() {
    for count in [0u64, 1, 17, u64::MAX] {
        let rate = calculate_tps(1000, 1000, count);
        assert_eq!(rate, Rate { transactions: 0, seconds: 1 });
        assert_eq!(as_float(rate), 0.0);
    }
}

#[test]
fn zero_count_gives_zero_rate() {
    let rate = calculate_tps(10, 20, 0);
    assert_eq!(rate, Rate { transactions: 0, seconds: 10 });
    assert_eq!(as_float(rate), 0.0);
}

#[test]
fn reversed_timestamps_give_zero_rate() {
    let rate = calculate_tps(1000, 940, 7);
    assert_eq!(rate, Rate { transactions: 0, seconds: 1 });
    assert!(as_float(rate).is_finite());
}
