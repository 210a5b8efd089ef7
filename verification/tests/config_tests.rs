use hft_core::config::SystemConfig;
use hft_core::execution::OrderType;
use hft_core::risk::RiskLimits;

#[test]
fn default_configuration_is_populated() {
    let config = SystemConfig::default();
    assert_eq!(config.risk_limits, RiskLimits::default());
    assert!(config.instruments.is_empty());
    assert_eq!(config.execution.default_order_type, OrderType::Limit);
    assert_eq!(config.execution.default_time_in_force, "GTC");
    assert!(config.execution.enable_order_aggregation);
    assert_eq!(config.execution.order_aggregation_timeout_ms, 10);
    assert!(config.data.enable_market_data);
    assert_eq!(config.data.market_data_types, vec!["trades".to_string(), "orderbook_l1".to_string()]);
    assert_eq!(config.data.update_frequency_ms, 100);
    assert!(!config.data.enable_historical_data);
}
