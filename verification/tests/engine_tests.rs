use hft_core::data::ExchangeId;
use hft_core::data::InstrumentId;
use hft_core::data::MarketDataKind;
use hft_core::data::MarketEvent;
use hft_core::data::OrderBookL1;
use hft_core::data::PublicTrade;
use hft_core::data::Side;
use hft_core::engine::Engine;
use hft_core::engine::EngineConfig;
use hft_core::engine::EngineState;
use hft_core::execution::MockExecutionClient;
use hft_core::risk::DefaultRiskManager;
use hft_core::strategy::DefaultStrategy;
use hft_core::execution::ExecutionEvent;
use hft_core::execution::ExecutionReport;
use hft_core::execution::OrderStatus;
use hft_core::SystemEvent;

fn instrument() -> InstrumentId {
    InstrumentId {
        base: "BTC".to_string(),
        quote: "USDT".to_string(),
        exchange_symbol: "BTCUSDT".to_string(),
    }
}

fn trade_event(ts: u64) -> MarketEvent {
    MarketEvent {
        exchange: ExchangeId::Binance,
        instrument: instrument(),
        kind: MarketDataKind::Trade(PublicTrade {
            id: "test".to_string(),
            price: 500_000_000,
            quantity: 1_000,
            side: Side::Buy,
            timestamp: ts,
        }),
        exchange_time: ts,
        receipt_time: ts,
    }
}

fn book_event(bid: u64, ask: u64, ts: u64) -> MarketEvent {
    MarketEvent {
        exchange: ExchangeId::Binance,
        instrument: instrument(),
        kind: MarketDataKind::OrderBookL1(OrderBookL1 {
            bid_price: bid,
            bid_quantity: 10_000,
            ask_price: ask,
            ask_quantity: 10_000,
            timestamp: ts,
        }),
        exchange_time: ts,
        receipt_time: ts,
    }
}

fn new_engine() -> Engine<DefaultStrategy, DefaultRiskManager, MockExecutionClient> {
    Engine::new(
        DefaultStrategy::new("test".to_string()),
        DefaultRiskManager::default(),
        MockExecutionClient::new(),
        EngineConfig::default(),
    )
}

#[test]
fn test_engine_creation() {
    let engine = new_engine();
    assert_eq!(engine.state, EngineState::Running);
    assert_eq!(engine.meta.events_processed, 0);
    assert_eq!(engine.meta.sequence.value(), 0);
}

#[test]
fn test_engine_process_market_event() {
    let mut engine = new_engine();
    let output = engine.process_event(SystemEvent::Market(trade_event(42)));
    assert_eq!(engine.meta.events_processed, 1);
    assert!(output.strategy_output.is_some());
    assert!(output.risk_output.is_some());
}

#[test]
fn test_engine_pause_resume() {
    let mut engine = new_engine();
    assert_eq!(engine.state, EngineState::Running);
    engine.pause();
    assert_eq!(engine.state, EngineState::Paused);
    engine.resume();
    assert_eq!(engine.state, EngineState::Running);
}

#[test]
fn test_engine_shutdown() {
    let mut engine = new_engine();
    assert_eq!(engine.state, EngineState::Running);
    engine.shutdown();
    assert_eq!(engine.state, EngineState::Shutdown);
}

#[test]
fn execution_events_advance_counters_without_output() {
    let mut engine = new_engine();
    let report = ExecutionReport {
        client_order_id: "o1".to_string(),
        exchange_order_id: None,
        status: OrderStatus::Filled,
        executed_quantity: 100,
        avg_price: 500_000_000,
        updated_at: 50,
    };
    let output = engine.process_event(SystemEvent::Execution(ExecutionEvent::OrderFilled(report)));
    assert_eq!(engine.meta.events_processed, 1);
    assert_eq!(engine.meta.sequence.value(), 1);
    assert!(output.strategy_output.is_none());
    assert!(output.risk_output.is_none());
}

#[test]
fn counters_equal_number_of_events_fed() {
    let mut engine = new_engine();
    let n: u64 = 7;
    for i in 0..n {
        engine.process_event(SystemEvent::Market(trade_event(100 + i)));
    }
    assert_eq!(engine.meta.events_processed, n);
    assert_eq!(engine.meta.sequence.value(), n);
    assert_eq!(engine.metrics.events_processed, n);
}

#[test]
fn shutdown_signal_is_terminal_and_touches_nothing() {
    let mut engine = new_engine();
    engine.process_event(SystemEvent::Market(trade_event(5)));
    let metrics_before = engine.metrics;
    let meta_before = engine.meta;

    let output = engine.process_event(SystemEvent::shutdown());

    assert_eq!(engine.state, EngineState::Shutdown);
    assert_eq!(engine.metrics, metrics_before);
    assert_eq!(engine.meta, meta_before);
    assert!(output.strategy_output.is_none());
    assert!(output.risk_output.is_none());
    assert_eq!(output.metrics, metrics_before);
}

#[test]
fn replay_same_events_gives_identical_outputs() {
    let events = vec![
        trade_event(10),
        book_event(499_000_000, 501_000_000, 11),
        trade_event(12),
        book_event(499_900_000, 500_100_000, 13),
    ];

    let mut first = new_engine();
    let mut second = new_engine();
    for event in &events {
        let a = first.process_event(SystemEvent::Market(event.clone()));
        let b = second.process_event(SystemEvent::Market(event.clone()));
        let sa = a.strategy_output.expect("market events produce strategy output");
        let sb = b.strategy_output.expect("market events produce strategy output");
        assert_eq!(sa.orders, sb.orders);
        assert_eq!(sa.signals, sb.signals);
        assert_eq!(a.risk_output.unwrap(), b.risk_output.unwrap());
    }
}
