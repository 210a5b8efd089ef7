use hft_core::statistic::PerformanceMetrics;
use hft_core::statistic::TradingSummary;

#[test]
fn first_sample_sets_average_minimum_and_maximum() {
    let mut metrics = PerformanceMetrics::new();
    assert_eq!(metrics.min_latency_micros, u64::MAX);
    assert_eq!(metrics.max_latency_micros, 0);

    metrics.update_latency(250);
    assert_eq!(metrics.events_processed, 1);
    assert_eq!(metrics.avg_latency_micros, 250);
    assert_eq!(metrics.min_latency_micros, 250);
    assert_eq!(metrics.max_latency_micros, 250);
}

#[test]
fn average_of_two_samples_is_their_half_sum() {
    let mut metrics = PerformanceMetrics::new();
    metrics.update_latency(100);
    metrics.update_latency(300);
    assert_eq!(metrics.events_processed, 2);
    assert_eq!(metrics.avg_latency_micros, 200);
    assert_eq!(metrics.min_latency_micros, 100);
    assert_eq!(metrics.max_latency_micros, 300);

    let mut odd = PerformanceMetrics::new();
    odd.update_latency(1);
    odd.update_latency(2);
    assert_eq!(odd.avg_latency_micros, 1);
}

#[test]
fn incremental_mean_follows_the_formula() {
    let mut metrics = PerformanceMetrics::new();
    metrics.update_latency(10);
    metrics.update_latency(20);
    metrics.update_latency(40);
    // ((15 * 2) + 40) / 3 with integer division.
    assert_eq!(metrics.avg_latency_micros, 23);
}

#[test]
fn order_counters_move_only_on_notification() {
    let mut metrics = PerformanceMetrics::new();
    metrics.update_latency(5);
    assert_eq!(metrics.orders_sent, 0);
    metrics.record_order_sent();
    metrics.record_order_sent();
    metrics.record_order_filled();
    metrics.record_order_cancelled();
    assert_eq!(metrics.orders_sent, 2);
    assert_eq!(metrics.orders_filled, 1);
    assert_eq!(metrics.orders_cancelled, 1);
}

#[test]
fn pnl_accumulates_signed_changes() {
    let mut metrics = PerformanceMetrics::new();
    metrics.update_pnl(1_500);
    metrics.update_pnl(-2_000);
    assert_eq!(metrics.pnl, -500);
}

#[test]
fn summary_records_period_and_duration() {
    let metrics = PerformanceMetrics::new();
    let summary = TradingSummary::new(metrics, 1_000, 4_500);
    assert_eq!(summary.start_time, 1_000);
    assert_eq!(summary.end_time, 4_500);
    assert_eq!(summary.duration_micros, 3_500);
    assert_eq!(summary.metrics, metrics);
}
