use hft_core::data::InstrumentId;
use hft_core::data::Side;
use hft_core::execution::OrderRequest;
use hft_core::execution::OrderType;
use hft_core::execution::TimeInForce;
use hft_core::risk::DefaultRiskManager;
use hft_core::risk::RiskLimits;
use hft_core::risk::RiskManager;
use hft_core::strategy::StrategyOutput;

fn order(quantity: u64, price: Option<u64>) -> OrderRequest {
    OrderRequest {
        client_order_id: "o1".to_string(),
        instrument: InstrumentId {
            base: "BTC".to_string(),
            quote: "USDT".to_string(),
            exchange_symbol: "BTCUSDT".to_string(),
        },
        side: Side::Buy,
        order_type: if price.is_some() { OrderType::Limit } else { OrderType::Market },
        quantity,
        price,
        stop_price: None,
        time_in_force: TimeInForce::GTC,
        created_at: 0,
    }
}

#[test]
fn default_limits_match_configuration() {
    let limits = RiskLimits::default();
    assert_eq!(limits.max_position_size, 1_000_000);
    assert_eq!(limits.max_notional_exposure, 1_000_000_000);
    assert_eq!(limits.max_orders_per_second, 100);
    assert_eq!(limits.max_order_size, 100_000);
    assert!(limits.enable_circuit_breaker);
    assert_eq!(limits.max_drawdown_percent, 50_000);
}

#[test]
fn oversized_order_is_always_rejected() {
    // Quantity 10.0001 exceeds the default single-order cap of 10.
    let mut gate = DefaultRiskManager::default();
    let verdict = gate.check_order_risk(&order(100_001, None), 0);
    assert!(!verdict.approved);
    assert_eq!(verdict.reason.as_deref(), Some("Order size exceeds limit"));
    assert!(verdict.modified_order.is_none());

    // Still rejected with budget already consumed and the window busy.
    gate.check_order_risk(&order(100, None), 0);
    let verdict = gate.check_order_risk(&order(100_001, Some(10_000)), 0);
    assert!(!verdict.approved);
    assert_eq!(verdict.reason.as_deref(), Some("Order size exceeds limit"));
}

#[test]
fn one_order_past_the_rate_limit_is_the_one_rejected() {
    let mut gate = DefaultRiskManager {
        limits: RiskLimits { max_orders_per_second: 3, ..RiskLimits::default() },
        ..DefaultRiskManager::default()
    };
    // Four small market orders in the same second.
    let batch = StrategyOutput {
        orders: vec![order(100, None), order(100, None), order(100, None), order(100, None)],
        signals: vec![],
    };
    let verdicts = gate.check_risk(&batch, 0);
    assert_eq!(verdicts.len(), 4);
    assert!(verdicts[0].approved);
    assert!(verdicts[1].approved);
    assert!(verdicts[2].approved);
    assert!(!verdicts[3].approved);
    assert_eq!(verdicts[3].reason.as_deref(), Some("Order rate limit exceeded"));

    // After a simulated second, the window restarts from zero.
    let verdict = gate.check_order_risk(&order(100, None), 1_500_000);
    assert!(verdict.approved);
    assert_eq!(gate.orders_this_second, 1);
    assert_eq!(gate.window_start_micros, 1_500_000);
}

#[test]
fn exposure_cap_rejects_with_reason() {
    // Cap of 100; each limit order binds 60 (price 60, quantity 1).
    let mut gate = DefaultRiskManager {
        limits: RiskLimits {
            max_notional_exposure: 1_000_000,
            max_order_size: 100_000,
            ..RiskLimits::default()
        },
        ..DefaultRiskManager::default()
    };
    let first = gate.check_order_risk(&order(10_000, Some(600_000)), 0);
    assert!(first.approved);
    let second = gate.check_order_risk(&order(10_000, Some(600_000)), 0);
    assert!(!second.approved);
    assert_eq!(second.reason.as_deref(), Some("Notional exposure limit exceeded"));
}

#[test]
fn market_orders_bind_quantity_as_notional() {
    // Cap of 2 units; market orders bind their quantity alone.
    let mut gate = DefaultRiskManager {
        limits: RiskLimits { max_notional_exposure: 20_000, ..RiskLimits::default() },
        ..DefaultRiskManager::default()
    };
    assert!(gate.check_order_risk(&order(10_000, None), 0).approved);
    assert!(gate.check_order_risk(&order(10_000, None), 0).approved);
    let third = gate.check_order_risk(&order(10_000, None), 0);
    assert!(!third.approved);
    assert_eq!(third.reason.as_deref(), Some("Notional exposure limit exceeded"));
}

#[test]
fn batch_verdicts_keep_order_and_share_state() {
    // The second order of the batch sees the exposure the first consumed.
    let mut gate = DefaultRiskManager {
        limits: RiskLimits { max_notional_exposure: 1_000_000, ..RiskLimits::default() },
        ..DefaultRiskManager::default()
    };
    let batch = StrategyOutput {
        orders: vec![order(10_000, Some(600_000)), order(10_000, Some(600_000))],
        signals: vec![],
    };
    let verdicts = gate.check_risk(&batch, 0);
    assert_eq!(verdicts.len(), 2);
    assert!(verdicts[0].approved);
    assert!(!verdicts[1].approved);
}
