use hft_core::data::InstrumentId;
use hft_core::data::Side;
use hft_core::execution::ExecutionClient;
use hft_core::execution::ExecutionError;
use hft_core::execution::MockExecutionClient;
use hft_core::execution::OrderRequest;
use hft_core::execution::OrderStatus;
use hft_core::execution::OrderType;
use hft_core::execution::TimeInForce;

fn order(id: &str, price: Option<u64>) -> OrderRequest {
    OrderRequest {
        client_order_id: id.to_string(),
        instrument: InstrumentId {
            base: "BTC".to_string(),
            quote: "USDT".to_string(),
            exchange_symbol: "BTCUSDT".to_string(),
        },
        side: Side::Buy,
        order_type: if price.is_some() { OrderType::Limit } else { OrderType::Market },
        quantity: 100,
        price,
        stop_price: None,
        time_in_force: TimeInForce::GTC,
        created_at: 0,
    }
}

#[test]
fn send_echoes_order_back_as_sent() {
    let mut client = MockExecutionClient::new();
    let report = client.send_order(order("abc", Some(123_456)), 99).unwrap();
    assert_eq!(report.client_order_id, "abc");
    assert_eq!(report.exchange_order_id.as_deref(), Some("ex_abc"));
    assert_eq!(report.status, OrderStatus::Sent);
    assert_eq!(report.executed_quantity, 0);
    assert_eq!(report.avg_price, 123_456);
    assert_eq!(report.updated_at, 99);
}

#[test]
fn market_order_report_has_zero_average_price() {
    let mut client = MockExecutionClient::new();
    let report = client.send_order(order("m1", None), 7).unwrap();
    assert_eq!(report.avg_price, 0);
}

#[test]
fn cancel_marks_known_order_cancelled() {
    let mut client = MockExecutionClient::new();
    client.send_order(order("abc", Some(5)), 10).unwrap();
    let cancelled = client.cancel_order("abc", 20).unwrap();
    assert_eq!(cancelled.status, OrderStatus::Cancelled);
    assert_eq!(cancelled.updated_at, 20);

    let queried = client.get_order_status("abc").unwrap();
    assert_eq!(queried.status, OrderStatus::Cancelled);
}

#[test]
fn unknown_order_fails_with_not_found() {
    let mut client = MockExecutionClient::new();
    client.send_order(order("abc", Some(5)), 10).unwrap();

    let cancel_err = client.cancel_order("missing", 11).unwrap_err();
    assert_eq!(cancel_err, ExecutionError::OrderNotFound);
    let query_err = client.get_order_status("missing").unwrap_err();
    assert_eq!(query_err, ExecutionError::OrderNotFound);
    assert_eq!(query_err.message(), "Order not found");
}

#[test]
fn query_returns_latest_report() {
    let mut client = MockExecutionClient::new();
    client.send_order(order("a", Some(1)), 1).unwrap();
    client.send_order(order("b", Some(2)), 2).unwrap();
    let report = client.get_order_status("a").unwrap();
    assert_eq!(report.client_order_id, "a");
    assert_eq!(report.status, OrderStatus::Sent);
    assert_eq!(report.avg_price, 1);
}
