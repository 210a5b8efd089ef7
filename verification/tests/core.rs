use hft_core::data::ExchangeId;
use hft_core::data::InstrumentId;
use hft_core::data::MarketDataKind;
use hft_core::data::MarketEvent;
use hft_core::data::PublicTrade;
use hft_core::data::Side;
use hft_core::engine::Engine;
use hft_core::engine::EngineConfig;
use hft_core::execution::MockExecutionClient;
use hft_core::risk::DefaultRiskManager;
use hft_core::strategy::DefaultStrategy;
use hft_core::Sequence;
use hft_core::SystemEvent;
use hft_core::Timed;

#[test]
fn test_sequence_increment() {
    let mut seq = Sequence(0);
    assert_eq!(seq.value(), 0);
    let prev = seq.fetch_add();
    assert_eq!(prev.value(), 0);
    assert_eq!(seq.value(), 1);
}

#[test]
fn test_timed_struct() {
    let now: u64 = 1234567;
    let timed_value = Timed::new("test", now);
    assert_eq!(timed_value.value, "test");
    assert_eq!(timed_value.time, now);
}

#[test]
fn test_system_event_creation() {
    let shutdown_event = SystemEvent::shutdown();
    assert!(matches!(shutdown_event, SystemEvent::Shutdown(_)));
}

#[test]
fn test_full_system_integration() {
    let strategy = DefaultStrategy::new("test_strategy".to_string());
    let risk_manager = DefaultRiskManager::default();
    let execution_client = MockExecutionClient::new();
    let engine_config = EngineConfig::default();

    let mut engine = Engine::new(strategy, risk_manager, execution_client, engine_config);

    let instrument = InstrumentId {
        base: "BTC".to_string(),
        quote: "USDT".to_string(),
        exchange_symbol: "BTCUSDT".to_string(),
    };

    // 50000.0 and 0.1 in the fixed-point representation.
    let market_event = MarketEvent {
        exchange: ExchangeId::Binance,
        instrument,
        kind: MarketDataKind::Trade(PublicTrade {
            id: "test_trade".to_string(),
            price: 500_000_000,
            quantity: 1_000,
            side: Side::Buy,
            timestamp: 42,
        }),
        exchange_time: 42,
        receipt_time: 42,
    };

    let output = engine.process_event(SystemEvent::Market(market_event));

    assert_eq!(engine.meta.events_processed, 1);
    assert!(output.metrics.events_processed >= 1);
}
