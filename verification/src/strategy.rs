//! Trading strategies: the strategy interface and a reference
//! mean-reversion/momentum implementation.
use crate::data::MarketDataKindV;
use crate::data::MarketEvent;
use crate::data::MarketEventV;
use crate::data::OrderBookL1;
use crate::data::PublicTrade;
use crate::data::PublicTradeV;
use crate::data::Side;
use crate::execution::ExecutionEvent;
use crate::execution::ExecutionEventV;
use crate::execution::OrderRequest;
use crate::execution::OrderRequestV;
use crate::execution::OrderType;
use crate::execution::TimeInForce;
use crate::fixed::decimal_digits;
use crate::fixed::u64_to_string;
use vstd::prelude::*;
use vstd::string::StringExecFns;

verus! {

/// Quantity of every order the reference strategy emits: 0.01 in
/// fixed-point representation.
pub const STRATEGY_ORDER_QUANTITY: u64 = 100;

/// One price tick: 0.0001 in fixed-point representation.
pub const PRICE_TICK: u64 = 1;

/// A strategy signal.
#[derive(Debug, PartialEq)]
pub enum StrategySignal {
    Buy { instrument: String, strength: u64 },
    Sell { instrument: String, strength: u64 },
    Hold { instrument: String },
}

/// Mathematical model of a [`StrategySignal`].
pub enum StrategySignalV {
    Buy { instrument: Seq<char>, strength: u64 },
    Sell { instrument: Seq<char>, strength: u64 },
    Hold { instrument: Seq<char> },
}

impl View for StrategySignal {
    type V = StrategySignalV;

    open spec fn view(&self) -> StrategySignalV {
        match self {
            StrategySignal::Buy { instrument, strength } => StrategySignalV::Buy {
                instrument: instrument@,
                strength: *strength,
            },
            StrategySignal::Sell { instrument, strength } => StrategySignalV::Sell {
                instrument: instrument@,
                strength: *strength,
            },
            StrategySignal::Hold { instrument } => StrategySignalV::Hold {
                instrument: instrument@,
            },
        }
    }
}

/// What one processed market event yields: generated orders and signals.
#[derive(Debug, PartialEq)]
pub struct StrategyOutput {
    pub orders: Vec<OrderRequest>,
    pub signals: Vec<StrategySignal>,
}

/// Mathematical model of a [`StrategyOutput`].
pub struct StrategyOutputV {
    pub orders: Seq<OrderRequestV>,
    pub signals: Seq<StrategySignalV>,
}

impl View for StrategyOutput {
    type V = StrategyOutputV;

    open spec fn view(&self) -> StrategyOutputV {
        StrategyOutputV {
            orders: self.orders@.map_values(|o: OrderRequest| o@),
            signals: self.signals@.map_values(|s: StrategySignal| s@),
        }
    }
}

/// A trading strategy: turns market events into orders and signals and
/// observes execution events. Each implementation pins its behaviour
/// through the two spec functions.
pub trait Strategy: Sized {
    type Output;

    /// What processing a market event did, per implementation.
    spec fn market_ens(pre: Self, post: Self, event: MarketEventV, out: Self::Output) -> bool;

    /// What processing an execution event did, per implementation.
    spec fn execution_ens(pre: Self, post: Self, event: ExecutionEventV) -> bool;

    /// Process market data and generate strategy output.
    fn process_market_data(&mut self, market_event: &MarketEvent) -> (out: Self::Output)
        ensures
            Self::market_ens(*old(self), *final(self), market_event@, out),
    ;

    /// Process an execution event.
    fn process_execution_event(&mut self, execution_event: &ExecutionEvent)
        ensures
            Self::execution_ens(*old(self), *final(self), execution_event@),
    ;
}

/// The opposite side.
pub open spec fn opposite_side(s: Side) -> Side {
    match s {
        Side::Buy => Side::Sell,
        Side::Sell => Side::Buy,
    }
}

/// True when the book's spread exceeds one tenth of a percent of the mid
/// price, i.e. `ask - bid > 0.001 * (ask + bid) / 2`.
pub open spec fn wide_spread(book: OrderBookL1) -> bool {
    &&& book.ask_price > book.bid_price
    &&& 2000 * (book.ask_price - book.bid_price) > book.ask_price + book.bid_price
}

/// A client order id: the strategy id, a tag for the order's role, and
/// the event timestamp, joined by underscores.
pub open spec fn order_id_spec(id: Seq<char>, tag: Seq<char>, ts: u64) -> Seq<char> {
    id + "_"@ + tag + "_"@ + decimal_digits(ts as int)
}

/// The single contrarian market order emitted for a public trade: the
/// opposite side of the trade, fixed small quantity, immediate-or-cancel.
pub open spec fn trade_orders_spec(id: Seq<char>, event: MarketEventV, trade: PublicTradeV) -> Seq<
    OrderRequestV,
> {
    seq![
        OrderRequestV {
            client_order_id: order_id_spec(id, "trade"@, event.receipt_time),
            instrument: event.instrument,
            side: opposite_side(trade.side),
            order_type: OrderType::Market,
            quantity: STRATEGY_ORDER_QUANTITY,
            price: None,
            stop_price: None,
            time_in_force: TimeInForce::IOC,
            created_at: event.receipt_time,
        },
    ]
}

/// The two passive limit orders emitted for a wide book: a buy one tick
/// above the best bid and a sell one tick below the best ask, both
/// good-till-cancelled; nothing when the spread is narrow.
pub open spec fn book_orders_spec(id: Seq<char>, event: MarketEventV, book: OrderBookL1) -> Seq<
    OrderRequestV,
> {
    if wide_spread(book) {
        seq![
            OrderRequestV {
                client_order_id: order_id_spec(id, "bid"@, event.receipt_time),
                instrument: event.instrument,
                side: Side::Buy,
                order_type: OrderType::Limit,
                quantity: STRATEGY_ORDER_QUANTITY,
                price: Some((book.bid_price + PRICE_TICK) as u64),
                stop_price: None,
                time_in_force: TimeInForce::GTC,
                created_at: event.receipt_time,
            },
            OrderRequestV {
                client_order_id: order_id_spec(id, "ask"@, event.receipt_time),
                instrument: event.instrument,
                side: Side::Sell,
                order_type: OrderType::Limit,
                quantity: STRATEGY_ORDER_QUANTITY,
                price: Some((book.ask_price - PRICE_TICK) as u64),
                stop_price: None,
                time_in_force: TimeInForce::GTC,
                created_at: event.receipt_time,
            },
        ]
    } else {
        Seq::empty()
    }
}

/// Everything the reference strategy emits for one market event: orders
/// per payload kind, and no signals.
pub open spec fn default_output_spec(id: Seq<char>, event: MarketEventV) -> StrategyOutputV {
    StrategyOutputV {
        orders: match event.kind {
            MarketDataKindV::OrderBookL1(book) => book_orders_spec(id, event, book),
            MarketDataKindV::Trade(trade) => trade_orders_spec(id, event, trade),
            MarketDataKindV::OrderBookL2(_) => Seq::empty(),
            MarketDataKindV::Candle(_) => Seq::empty(),
        },
        signals: Seq::empty(),
    }
}

/// Reference mean-reversion/momentum strategy.
#[derive(Debug)]
pub struct DefaultStrategy {
    /// Strategy id; prefixes every client order id.
    pub id: String,
}

impl DefaultStrategy {
    pub fn new(id: String) -> (r: Self)
        ensures
            r.id == id,
    {
        DefaultStrategy { id }
    }

    fn make_order_id(&self, tag: &str, ts: u64) -> (r: String)
        ensures
            r@ == order_id_spec(self.id@, tag@, ts),
    {
        self.id.clone().concat("_").concat(tag).concat("_").concat(u64_to_string(ts).as_str())
    }

    /// Generate orders from a best-bid/ask book snapshot, as
    /// [`book_orders_spec`] says.
    pub fn generate_orders_from_orderbook(
        &self,
        market_event: &MarketEvent,
        book: &OrderBookL1,
    ) -> (r: Vec<OrderRequest>)
        ensures
            r@.map_values(|o: OrderRequest| o@) == book_orders_spec(self.id@, market_event@, *book),
    {
        let wide = book.ask_price > book.bid_price && {
            let spread = (book.ask_price - book.bid_price) as u128;
            2000u128 * spread > book.ask_price as u128 + book.bid_price as u128
        };
        if wide {
            let buy = OrderRequest {
                client_order_id: self.make_order_id("bid", market_event.receipt_time),
                instrument: market_event.instrument.clone(),
                side: Side::Buy,
                order_type: OrderType::Limit,
                quantity: STRATEGY_ORDER_QUANTITY,
                price: Some(book.bid_price + PRICE_TICK),
                stop_price: None,
                time_in_force: TimeInForce::GTC,
                created_at: market_event.receipt_time,
            };
            let sell = OrderRequest {
                client_order_id: self.make_order_id("ask", market_event.receipt_time),
                instrument: market_event.instrument.clone(),
                side: Side::Sell,
                order_type: OrderType::Limit,
                quantity: STRATEGY_ORDER_QUANTITY,
                price: Some(book.ask_price - PRICE_TICK),
                stop_price: None,
                time_in_force: TimeInForce::GTC,
                created_at: market_event.receipt_time,
            };
            let mut r: Vec<OrderRequest> = Vec::new();
            r.push(buy);
            r.push(sell);
            proof {
                assert(r@.map_values(|o: OrderRequest| o@) =~= book_orders_spec(
                    self.id@,
                    market_event@,
                    *book,
                ));
            }
            r
        } else {
            let r: Vec<OrderRequest> = Vec::new();
            proof {
                assert(r@.map_values(|o: OrderRequest| o@) =~= book_orders_spec(
                    self.id@,
                    market_event@,
                    *book,
                ));
            }
            r
        }
    }

    /// Generate the contrarian order for a public trade, as
    /// [`trade_orders_spec`] says.
    pub fn generate_orders_from_trade(&self, market_event: &MarketEvent, trade: &PublicTrade) -> (r:
        Vec<OrderRequest>)
        ensures
            r@.map_values(|o: OrderRequest| o@) == trade_orders_spec(
                self.id@,
                market_event@,
                trade@,
            ),
    {
        let side = match trade.side {
            Side::Buy => Side::Sell,
            Side::Sell => Side::Buy,
        };
        let order = OrderRequest {
            client_order_id: self.make_order_id("trade", market_event.receipt_time),
            instrument: market_event.instrument.clone(),
            side,
            order_type: OrderType::Market,
            quantity: STRATEGY_ORDER_QUANTITY,
            price: None,
            stop_price: None,
            time_in_force: TimeInForce::IOC,
            created_at: market_event.receipt_time,
        };
        let mut r: Vec<OrderRequest> = Vec::new();
        r.push(order);
        proof {
            assert(r@.map_values(|o: OrderRequest| o@) =~= trade_orders_spec(
                self.id@,
                market_event@,
                trade@,
            ));
        }
        r
    }
}

impl Default for DefaultStrategy {
    fn default() -> (r: Self)
        ensures
            r.id@ == "default"@,
    {
        DefaultStrategy { id: String::from_str("default") }
    }
}

impl Strategy for DefaultStrategy {
    type Output = StrategyOutput;

    /// The strategy itself is unchanged and the output is exactly
    /// [`default_output_spec`] of the event.
    open spec fn market_ens(
        pre: Self,
        post: Self,
        event: MarketEventV,
        out: StrategyOutput,
    ) -> bool {
        &&& post == pre
        &&& out@ == default_output_spec(pre.id@, event)
    }

    /// Execution events are accepted and change nothing.
    open spec fn execution_ens(pre: Self, post: Self, event: ExecutionEventV) -> bool {
        post == pre
    }

    fn process_market_data(&mut self, market_event: &MarketEvent) -> (out: StrategyOutput) {
        let orders = match &market_event.kind {
            crate::data::MarketDataKind::OrderBookL1(book) => self.generate_orders_from_orderbook(
                market_event,
                book,
            ),
            crate::data::MarketDataKind::Trade(trade) => self.generate_orders_from_trade(
                market_event,
                trade,
            ),
            _ => Vec::new(),
        };
        let out = StrategyOutput { orders, signals: Vec::new() };
        proof {
            assert(out@.orders =~= default_output_spec(self.id@, market_event@).orders);
            assert(out@.signals =~= default_output_spec(self.id@, market_event@).signals);
        }
        out
    }

    fn process_execution_event(&mut self, _execution_event: &ExecutionEvent) {
    }
}

} // verus!
