use hft_core::data::build_l1_event;
use hft_core::data::build_trade_event;
use hft_core::data::is_depth_stream;
use hft_core::data::is_trade_stream;
use hft_core::data::remove_instruments;
use hft_core::data::ExchangeId;
use hft_core::data::InstrumentId;
use hft_core::data::MarketDataKind;
use hft_core::data::MarketEvent;
use hft_core::data::MockMarketDataStream;
use hft_core::data::PublicTrade;
use hft_core::data::Side;
use hft_core::fixed::parse_fixed;
use hft_core::fixed::u64_to_string;

fn instrument(symbol: &str) -> InstrumentId {
    InstrumentId {
        base: symbol[..symbol.len() - 4].to_string(),
        quote: symbol[symbol.len() - 4..].to_string(),
        exchange_symbol: symbol.to_string(),
    }
}

#[test]
fn parse_fixed_accepts_decimal_literals() {
    assert_eq!(parse_fixed("0"), Some(0));
    assert_eq!(parse_fixed("50000.0"), Some(500_000_000));
    assert_eq!(parse_fixed("0.1"), Some(1_000));
    assert_eq!(parse_fixed("0.0001"), Some(1));
    assert_eq!(parse_fixed("10"), Some(100_000));
    assert_eq!(parse_fixed("1."), Some(10_000));
    assert_eq!(parse_fixed("007"), Some(70_000));
    // The largest representable amount, written with all four places.
    assert_eq!(parse_fixed("1844674407370955.1615"), Some(u64::MAX));
    assert_eq!(parse_fixed("1844674407370955.1616"), None);
}

#[test]
fn parse_fixed_rejects_malformed_literals() {
    assert_eq!(parse_fixed(""), None);
    assert_eq!(parse_fixed("abc"), None);
    assert_eq!(parse_fixed(".5"), None);
    assert_eq!(parse_fixed("1.2.3"), None);
    assert_eq!(parse_fixed("-1"), None);
    assert_eq!(parse_fixed("1.23456"), None);
    assert_eq!(parse_fixed("18446744073709551616"), None);
}

#[test]
fn u64_renders_in_decimal() {
    assert_eq!(u64_to_string(0), "0");
    assert_eq!(u64_to_string(7), "7");
    assert_eq!(u64_to_string(1234567890), "1234567890");
    assert_eq!(u64_to_string(u64::MAX), "18446744073709551615");
}

#[test]
fn stream_names_are_recognised_by_suffix() {
    assert!(is_trade_stream("btcusdt@trade"));
    assert!(!is_trade_stream("btcusdt@depth20"));
    assert!(is_depth_stream("btcusdt@depth20"));
    assert!(!is_depth_stream("btcusdt@trade"));
    assert!(!is_trade_stream("trade"));
}

#[test]
fn trade_message_becomes_trade_event() {
    let event = build_trade_event("btcusdt@trade", "50000.0", "0.1", false, 12345, 99).unwrap();
    assert_eq!(event.exchange, ExchangeId::Binance);
    assert_eq!(event.instrument.base, "BTC");
    assert_eq!(event.instrument.quote, "USDT");
    assert_eq!(event.instrument.exchange_symbol, "BTCUSDT");
    assert_eq!(event.exchange_time, 99);
    assert_eq!(event.receipt_time, 99);
    match event.kind {
        MarketDataKind::Trade(trade) => {
            assert_eq!(trade.id, "12345");
            assert_eq!(trade.price, 500_000_000);
            assert_eq!(trade.quantity, 1_000);
            assert_eq!(trade.side, Side::Buy);
            assert_eq!(trade.timestamp, 99);
        },
        other => panic!("expected a trade, got {:?}", other),
    }
}

#[test]
fn buyer_as_maker_means_a_sell() {
    let event = build_trade_event("ethusdt@trade", "1.0", "1.0", true, 1, 2).unwrap();
    match event.kind {
        MarketDataKind::Trade(trade) => assert_eq!(trade.side, Side::Sell),
        other => panic!("expected a trade, got {:?}", other),
    }
}

#[test]
fn malformed_trade_messages_are_rejected() {
    assert!(build_trade_event("btcusdt@depth20", "1.0", "1.0", false, 1, 2).is_none());
    assert!(build_trade_event("btcusdt@trade", "oops", "1.0", false, 1, 2).is_none());
    assert!(build_trade_event("btc@trade", "1.0", "1.0", false, 1, 2).is_none());
}

#[test]
fn depth_message_becomes_l1_event() {
    let event = build_l1_event("btcusdt@depth20", "49990", "1.5", "50010", "2", 55).unwrap();
    assert_eq!(event.instrument.exchange_symbol, "BTCUSDT");
    match event.kind {
        MarketDataKind::OrderBookL1(book) => {
            assert_eq!(book.bid_price, 499_900_000);
            assert_eq!(book.bid_quantity, 15_000);
            assert_eq!(book.ask_price, 500_100_000);
            assert_eq!(book.ask_quantity, 20_000);
            assert_eq!(book.timestamp, 55);
        },
        other => panic!("expected a level-one book, got {:?}", other),
    }
}

#[test]
fn mock_stream_replays_events_in_order() {
    let first = MarketEvent {
        exchange: ExchangeId::Binance,
        instrument: instrument("BTCUSDT"),
        kind: MarketDataKind::Trade(PublicTrade {
            id: "1".to_string(),
            price: 1,
            quantity: 1,
            side: Side::Buy,
            timestamp: 1,
        }),
        exchange_time: 1,
        receipt_time: 1,
    };
    let mut second = first.clone();
    second.receipt_time = 2;

    let mut stream = MockMarketDataStream::new(vec![first.clone(), second.clone()]);
    assert_eq!(stream.next(), Some(first));
    assert_eq!(stream.next(), Some(second));
    assert_eq!(stream.next(), None);
    assert_eq!(stream.next(), None);
}

#[test]
fn removing_instruments_keeps_the_rest_in_order() {
    let kept = vec![instrument("BTCUSDT"), instrument("ETHUSDT"), instrument("XRPUSDT")];
    let removed = vec![instrument("ETHUSDT")];
    let rest = remove_instruments(kept, &removed);
    assert_eq!(rest.len(), 2);
    assert_eq!(rest[0], instrument("BTCUSDT"));
    assert_eq!(rest[1], instrument("XRPUSDT"));
}
