use hft_core::data::Candle;
use hft_core::data::ExchangeId;
use hft_core::data::InstrumentId;
use hft_core::data::MarketDataKind;
use hft_core::data::MarketEvent;
use hft_core::data::OrderBookL1;
use hft_core::data::PublicTrade;
use hft_core::data::Side;
use hft_core::execution::OrderType;
use hft_core::execution::TimeInForce;
use hft_core::strategy::DefaultStrategy;
use hft_core::strategy::Strategy;

fn instrument() -> InstrumentId {
    InstrumentId {
        base: "BTC".to_string(),
        quote: "USDT".to_string(),
        exchange_symbol: "BTCUSDT".to_string(),
    }
}

fn event_with(kind: MarketDataKind, ts: u64) -> MarketEvent {
    MarketEvent {
        exchange: ExchangeId::Binance,
        instrument: instrument(),
        kind,
        exchange_time: ts,
        receipt_time: ts,
    }
}

#[test]
fn trade_event_yields_one_contrarian_ioc_market_order() {
    // A buy trade of 0.1 at 50000 must yield one sell market order of
    // 0.01, immediate-or-cancel.
    let mut strategy = DefaultStrategy::new("s".to_string());
    let event = event_with(
        MarketDataKind::Trade(PublicTrade {
            id: "t".to_string(),
            price: 500_000_000,
            quantity: 1_000,
            side: Side::Buy,
            timestamp: 777,
        }),
        777,
    );
    let out = strategy.process_market_data(&event);
    assert_eq!(out.orders.len(), 1);
    assert_eq!(out.signals.len(), 0);
    let order = &out.orders[0];
    assert_eq!(order.side, Side::Sell);
    assert_eq!(order.order_type, OrderType::Market);
    assert_eq!(order.quantity, 100);
    assert_eq!(order.time_in_force, TimeInForce::IOC);
    assert_eq!(order.price, None);
    assert_eq!(order.client_order_id, "s_trade_777");
    assert_eq!(order.created_at, 777);
    assert_eq!(order.instrument, instrument());
}

#[test]
fn sell_trade_yields_buy_order() {
    let mut strategy = DefaultStrategy::default();
    let event = event_with(
        MarketDataKind::Trade(PublicTrade {
            id: "t".to_string(),
            price: 500_000_000,
            quantity: 1_000,
            side: Side::Sell,
            timestamp: 1,
        }),
        1,
    );
    let out = strategy.process_market_data(&event);
    assert_eq!(out.orders.len(), 1);
    assert_eq!(out.orders[0].side, Side::Buy);
    assert_eq!(out.orders[0].client_order_id, "default_trade_1");
}

#[test]
fn narrow_spread_yields_no_orders() {
    // bid 49990, ask 50010: spread 20 is under the 50 threshold.
    let mut strategy = DefaultStrategy::new("s".to_string());
    let event = event_with(
        MarketDataKind::OrderBookL1(OrderBookL1 {
            bid_price: 499_900_000,
            bid_quantity: 10_000,
            ask_price: 500_100_000,
            ask_quantity: 10_000,
            timestamp: 5,
        }),
        5,
    );
    let out = strategy.process_market_data(&event);
    assert_eq!(out.orders.len(), 0);
}

#[test]
fn wide_spread_yields_two_passive_limit_orders() {
    // bid 49900, ask 50100: spread 200 exceeds the 50 threshold.
    let mut strategy = DefaultStrategy::new("s".to_string());
    let event = event_with(
        MarketDataKind::OrderBookL1(OrderBookL1 {
            bid_price: 499_000_000,
            bid_quantity: 10_000,
            ask_price: 501_000_000,
            ask_quantity: 10_000,
            timestamp: 9,
        }),
        9,
    );
    let out = strategy.process_market_data(&event);
    assert_eq!(out.orders.len(), 2);

    let buy = &out.orders[0];
    assert_eq!(buy.side, Side::Buy);
    assert_eq!(buy.order_type, OrderType::Limit);
    assert_eq!(buy.price, Some(499_000_001));
    assert_eq!(buy.quantity, 100);
    assert_eq!(buy.time_in_force, TimeInForce::GTC);
    assert_eq!(buy.client_order_id, "s_bid_9");

    let sell = &out.orders[1];
    assert_eq!(sell.side, Side::Sell);
    assert_eq!(sell.order_type, OrderType::Limit);
    assert_eq!(sell.price, Some(500_999_999));
    assert_eq!(sell.quantity, 100);
    assert_eq!(sell.time_in_force, TimeInForce::GTC);
    assert_eq!(sell.client_order_id, "s_ask_9");
}

#[test]
fn other_payloads_yield_no_orders() {
    let mut strategy = DefaultStrategy::new("s".to_string());
    let event = event_with(
        MarketDataKind::Candle(Candle {
            open: 1,
            high: 2,
            low: 1,
            close: 2,
            volume: 100,
            timestamp: 3,
            duration_secs: 60,
        }),
        3,
    );
    let out = strategy.process_market_data(&event);
    assert_eq!(out.orders.len(), 0);
    assert_eq!(out.signals.len(), 0);
}
