//! Market data: event payloads, instrument identity, and the shaping of
//! exchange stream messages into market events.
//!
//! Prices and quantities are fixed-point amounts (see [`crate::fixed`]);
//! timestamps are microseconds.
use crate::fixed::decimal_digits;
use crate::fixed::parse_fixed;
use crate::fixed::parse_fixed_spec;
use crate::fixed::u64_to_string;
use vstd::prelude::*;
use vstd::string::StrSliceExecFns;

verus! {

/// Side of a trade or order.
#[derive(Debug, Copy, Clone, PartialEq, Eq, Structural, Hash)]
pub enum Side {
    Buy,
    Sell,
}

/// Exchange identifier.
#[derive(Debug, Copy, Clone, PartialEq, Eq, Structural, Hash)]
pub enum ExchangeId {
    Binance,
    Coinbase,
    Kraken,
    Ftx,
}

/// Instrument identifier; equality is structural.
#[derive(Debug, Eq, Hash)]
pub struct InstrumentId {
    pub base: String,
    pub quote: String,
    pub exchange_symbol: String,
}

/// Mathematical model of an [`InstrumentId`].
pub struct InstrumentIdV {
    pub base: Seq<char>,
    pub quote: Seq<char>,
    pub exchange_symbol: Seq<char>,
}

impl View for InstrumentId {
    type V = InstrumentIdV;

    open spec fn view(&self) -> InstrumentIdV {
        InstrumentIdV {
            base: self.base@,
            quote: self.quote@,
            exchange_symbol: self.exchange_symbol@,
        }
    }
}

impl Clone for InstrumentId {
    fn clone(&self) -> (r: Self)
        ensures
            r == *self,
    {
        let r = InstrumentId {
            base: self.base.clone(),
            quote: self.quote.clone(),
            exchange_symbol: self.exchange_symbol.clone(),
        };
        proof {
            assert(r == *self);
        }
        r
    }
}

impl PartialEq for InstrumentId {
    fn eq(&self, other: &Self) -> (r: bool) {
        self.base == other.base && self.quote == other.quote && self.exchange_symbol
            == other.exchange_symbol
    }
}

impl vstd::std_specs::cmp::PartialEqSpecImpl for InstrumentId {
    open spec fn obeys_eq_spec() -> bool {
        true
    }

    open spec fn eq_spec(&self, other: &Self) -> bool {
        self@ == other@
    }
}

/// Public trade information.
#[derive(Debug, PartialEq)]
pub struct PublicTrade {
    pub id: String,
    pub price: u64,
    pub quantity: u64,
    pub side: Side,
    pub timestamp: u64,
}

/// Mathematical model of a [`PublicTrade`].
pub struct PublicTradeV {
    pub id: Seq<char>,
    pub price: u64,
    pub quantity: u64,
    pub side: Side,
    pub timestamp: u64,
}

impl View for PublicTrade {
    type V = PublicTradeV;

    open spec fn view(&self) -> PublicTradeV {
        PublicTradeV {
            id: self.id@,
            price: self.price,
            quantity: self.quantity,
            side: self.side,
            timestamp: self.timestamp,
        }
    }
}

impl Clone for PublicTrade {
    fn clone(&self) -> (r: Self)
        ensures
            r == *self,
    {
        let r = PublicTrade {
            id: self.id.clone(),
            price: self.price,
            quantity: self.quantity,
            side: self.side,
            timestamp: self.timestamp,
        };
        proof {
            assert(r == *self);
        }
        r
    }
}

/// Best bid and ask of an order book.
#[derive(Debug, Copy, Clone, PartialEq, Eq, Structural)]
pub struct OrderBookL1 {
    pub bid_price: u64,
    pub bid_quantity: u64,
    pub ask_price: u64,
    pub ask_quantity: u64,
    pub timestamp: u64,
}

/// One price level of an order book.
#[derive(Debug, Copy, Clone, PartialEq, Eq, Structural)]
pub struct PriceLevel {
    pub price: u64,
    pub quantity: u64,
}

/// Full-depth order book snapshot, best levels first.
#[derive(Debug, PartialEq)]
pub struct OrderBookL2 {
    pub bids: Vec<PriceLevel>,
    pub asks: Vec<PriceLevel>,
    pub timestamp: u64,
}

/// Mathematical model of an [`OrderBookL2`].
pub struct OrderBookL2V {
    pub bids: Seq<PriceLevel>,
    pub asks: Seq<PriceLevel>,
    pub timestamp: u64,
}

impl View for OrderBookL2 {
    type V = OrderBookL2V;

    open spec fn view(&self) -> OrderBookL2V {
        OrderBookL2V { bids: self.bids@, asks: self.asks@, timestamp: self.timestamp }
    }
}

fn clone_levels(v: &Vec<PriceLevel>) -> (r: Vec<PriceLevel>)
    ensures
        r@ == v@,
{
    let mut r: Vec<PriceLevel> = Vec::new();
    let mut i: usize = 0;
    while i < v.len()
        invariant
            0 <= i <= v.len(),
            r@ == v@.subrange(0, i as int),
        decreases v.len() - i,
    {
        r.push(v[i]);
        proof {
            assert(r@ =~= v@.subrange(0, i as int + 1));
        }
        i = i + 1;
    }
    proof {
        assert(r@ =~= v@);
    }
    r
}

impl Clone for OrderBookL2 {
    fn clone(&self) -> (r: Self)
        ensures
            r@ == self@,
    {
        OrderBookL2 {
            bids: clone_levels(&self.bids),
            asks: clone_levels(&self.asks),
            timestamp: self.timestamp,
        }
    }
}

/// Candlestick data.
#[derive(Debug, Copy, Clone, PartialEq, Eq, Structural)]
pub struct Candle {
    pub open: u64,
    pub high: u64,
    pub low: u64,
    pub close: u64,
    pub volume: u64,
    pub timestamp: u64,
    pub duration_secs: u64,
}

/// The payload of a market event.
#[derive(Debug, PartialEq)]
pub enum MarketDataKind {
    Trade(PublicTrade),
    OrderBookL1(OrderBookL1),
    OrderBookL2(OrderBookL2),
    Candle(Candle),
}

/// Mathematical model of a [`MarketDataKind`].
pub enum MarketDataKindV {
    Trade(PublicTradeV),
    OrderBookL1(OrderBookL1),
    OrderBookL2(OrderBookL2V),
    Candle(Candle),
}

impl View for MarketDataKind {
    type V = MarketDataKindV;

    open spec fn view(&self) -> MarketDataKindV {
        match self {
            MarketDataKind::Trade(t) => MarketDataKindV::Trade(t@),
            MarketDataKind::OrderBookL1(b) => MarketDataKindV::OrderBookL1(*b),
            MarketDataKind::OrderBookL2(b) => MarketDataKindV::OrderBookL2(b@),
            MarketDataKind::Candle(c) => MarketDataKindV::Candle(*c),
        }
    }
}

impl Clone for MarketDataKind {
    fn clone(&self) -> (r: Self)
        ensures
            r@ == self@,
    {
        match self {
            MarketDataKind::Trade(t) => MarketDataKind::Trade(t.clone()),
            MarketDataKind::OrderBookL1(b) => MarketDataKind::OrderBookL1(*b),
            MarketDataKind::OrderBookL2(b) => MarketDataKind::OrderBookL2(b.clone()),
            MarketDataKind::Candle(c) => MarketDataKind::Candle(*c),
        }
    }
}

/// A market event as delivered by a data feed.
#[derive(Debug, PartialEq)]
pub struct MarketEvent {
    pub exchange: ExchangeId,
    pub instrument: InstrumentId,
    pub kind: MarketDataKind,
    /// Exchange timestamp, microseconds.
    pub exchange_time: u64,
    /// Local receipt timestamp, microseconds.
    pub receipt_time: u64,
}

/// Mathematical model of a [`MarketEvent`].
pub struct MarketEventV {
    pub exchange: ExchangeId,
    pub instrument: InstrumentIdV,
    pub kind: MarketDataKindV,
    pub exchange_time: u64,
    pub receipt_time: u64,
}

impl View for MarketEvent {
    type V = MarketEventV;

    open spec fn view(&self) -> MarketEventV {
        MarketEventV {
            exchange: self.exchange,
            instrument: self.instrument@,
            kind: self.kind@,
            exchange_time: self.exchange_time,
            receipt_time: self.receipt_time,
        }
    }
}

impl Clone for MarketEvent {
    fn clone(&self) -> (r: Self)
        ensures
            r@ == self@,
    {
        MarketEvent {
            exchange: self.exchange,
            instrument: self.instrument.clone(),
            kind: self.kind.clone(),
            exchange_time: self.exchange_time,
            receipt_time: self.receipt_time,
        }
    }
}

/// Replays a fixed sequence of market events.
pub struct MockMarketDataStream {
    events: Vec<MarketEvent>,
    current_index: usize,
}

impl MockMarketDataStream {
    /// The events not yet delivered.
    pub closed spec fn remaining(&self) -> Seq<MarketEvent> {
        if self.current_index <= self.events.len() {
            self.events@.subrange(self.current_index as int, self.events@.len() as int)
        } else {
            Seq::empty()
        }
    }

    pub fn new(events: Vec<MarketEvent>) -> (r: Self)
        ensures
            r.remaining() == events@,
    {
        let r = MockMarketDataStream { events, current_index: 0 };
        proof {
            assert(r.remaining() =~= r.events@);
        }
        r
    }

    /// Delivers the next event of the fixed sequence, or nothing once it
    /// is exhausted.
    pub fn next(&mut self) -> (r: Option<MarketEvent>)
        ensures
            old(self).remaining().len() > 0 ==> {
                &&& r matches Some(e) && e@ == old(self).remaining()[0]@
                &&& final(self).remaining() == old(self).remaining().drop_first()
            },
            old(self).remaining().len() == 0 ==> r is None && *final(self) == *old(self),
    {
        if self.current_index < self.events.len() {
            let event = self.events[self.current_index].clone();
            self.current_index = self.current_index + 1;
            proof {
                assert(final(self).remaining() =~= old(self).remaining().drop_first());
                assert(event@ == old(self).remaining()[0]@);
            }
            Some(event)
        } else {
            None
        }
    }
}

/// True when `x` equals no element of `removed`.
pub open spec fn not_in_instruments(x: InstrumentIdV, removed: Seq<InstrumentIdV>) -> bool {
    forall|j: int| 0 <= j < removed.len() ==> removed[j] != x
}

/// The instruments of `kept` whose identity is in none of `removed`, in
/// their original order.
pub open spec fn instruments_without(
    kept: Seq<InstrumentId>,
    removed: Seq<InstrumentIdV>,
) -> Seq<InstrumentId>
    decreases kept.len(),
{
    if kept.len() == 0 {
        Seq::empty()
    } else {
        let rest = instruments_without(kept.drop_last(), removed);
        if not_in_instruments(kept.last()@, removed) {
            rest.push(kept.last())
        } else {
            rest
        }
    }
}

fn instrument_listed(x: &InstrumentId, list: &Vec<InstrumentId>) -> (r: bool)
    ensures
        r == !not_in_instruments(x@, list@.map_values(|i: InstrumentId| i@)),
{
    let ghost lv = list@.map_values(|i: InstrumentId| i@);
    let mut j: usize = 0;
    while j < list.len()
        invariant
            0 <= j <= list@.len(),
            lv == list@.map_values(|i: InstrumentId| i@),
            lv.len() == list@.len(),
            forall|k: int| 0 <= k < j ==> lv[k] != x@,
        decreases list@.len() - j,
    {
        proof {
            assert(lv[j as int] == list@[j as int]@);
        }
        if x == &list[j] {
            return true;
        }
        j = j + 1;
    }
    false
}

/// Drops from `kept` every instrument listed in `removed`, keeping the
/// order of the rest, as [`instruments_without`] says.
pub fn remove_instruments(kept: Vec<InstrumentId>, removed: &Vec<InstrumentId>) -> (r: Vec<
    InstrumentId,
>)
    ensures
        r@ == instruments_without(kept@, removed@.map_values(|i: InstrumentId| i@)),
{
    let ghost rv = removed@.map_values(|i: InstrumentId| i@);
    let mut r: Vec<InstrumentId> = Vec::new();
    let mut i: usize = 0;
    while i < kept.len()
        invariant
            0 <= i <= kept@.len(),
            rv == removed@.map_values(|i: InstrumentId| i@),
            r@ == instruments_without(kept@.subrange(0, i as int), rv),
        decreases kept@.len() - i,
    {
        let listed = instrument_listed(&kept[i], removed);
        if !listed {
            r.push(kept[i].clone());
        }
        proof {
            assert(kept@.subrange(0, i as int + 1).drop_last() =~= kept@.subrange(0, i as int));
            assert(kept@.subrange(0, i as int + 1).last() == kept@[i as int]);
        }
        i = i + 1;
    }
    proof {
        assert(kept@.subrange(0, kept@.len() as int) =~= kept@);
    }
    r
}

/// True when `s` ends with `sfx`.
pub open spec fn ends_with_spec(s: Seq<char>, sfx: Seq<char>) -> bool {
    s.len() >= sfx.len() && s.subrange(s.len() - sfx.len(), s.len() as int) == sfx
}

fn str_ends_with(s: &str, suffix: &str) -> (r: bool)
    ensures
        r == ends_with_spec(s@, suffix@),
{
    let n = s.unicode_len();
    let m = suffix.unicode_len();
    if n < m {
        return false;
    }
    let mut i: usize = 0;
    while i < m
        invariant
            0 <= i <= m <= n,
            n == s@.len(),
            m == suffix@.len(),
            forall|j: int| 0 <= j < i ==> s@[n - m + j] == suffix@[j],
        decreases m - i,
    {
        let a = s.get_char(n - m + i);
        let b = suffix.get_char(i);
        if a != b {
            proof {
                if ends_with_spec(s@, suffix@) {
                    assert(s@.subrange(n as int - m, n as int)[i as int] == s@[n - m + i]);
                }
            }
            return false;
        }
        i = i + 1;
    }
    proof {
        assert(s@.subrange(n as int - m, n as int) =~= suffix@);
    }
    true
}

/// What `str::to_uppercase` returns for a given character sequence.
pub uninterp spec fn upper_of(s: Seq<char>) -> Seq<char>;

/// Relies on str::to_uppercase: the result is a function of the characters
/// alone (the Unicode uppercase mapping).
#[verifier::external_body]
fn to_upper(s: &str) -> (r: String)
    ensures
        r@ == upper_of(s@),
{
    s.to_uppercase()
}

/// The instrument named by an exchange stream symbol: the last four
/// characters are the quote asset, the rest the base, both upper-cased.
pub open spec fn binance_instrument_spec(sym: Seq<char>) -> InstrumentIdV
    recommends
        sym.len() >= 4,
{
    InstrumentIdV {
        base: upper_of(sym.subrange(0, sym.len() - 4)),
        quote: upper_of(sym.subrange(sym.len() - 4, sym.len() as int)),
        exchange_symbol: upper_of(sym),
    }
}

fn binance_instrument(stream: &str, sym_len: usize) -> (r: InstrumentId)
    requires
        4 <= sym_len <= stream@.len(),
    ensures
        r@ == binance_instrument_spec(stream@.subrange(0, sym_len as int)),
{
    let ghost sym = stream@.subrange(0, sym_len as int);
    let base_part = stream.substring_char(0, sym_len - 4);
    let quote_part = stream.substring_char(sym_len - 4, sym_len);
    let sym_part = stream.substring_char(0, sym_len);
    proof {
        assert(base_part@ =~= sym.subrange(0, sym.len() - 4));
        assert(quote_part@ =~= sym.subrange(sym.len() - 4, sym.len() as int));
        assert(sym_part@ =~= sym);
    }
    InstrumentId {
        base: to_upper(base_part),
        quote: to_upper(quote_part),
        exchange_symbol: to_upper(sym_part),
    }
}

/// True when the stream name carries public trades.
pub fn is_trade_stream(stream: &str) -> (r: bool)
    ensures
        r == ends_with_spec(stream@, "@trade"@),
{
    str_ends_with(stream, "@trade")
}

/// True when the stream name carries order book depth.
pub fn is_depth_stream(stream: &str) -> (r: bool)
    ensures
        r == ends_with_spec(stream@, "@depth20"@),
{
    str_ends_with(stream, "@depth20")
}

/// The market event shaped from one trade-stream message, given the plain
/// fields of that message; nothing when the stream name or a number is
/// malformed.
pub open spec fn trade_event_spec(
    stream: Seq<char>,
    price: Seq<char>,
    quantity: Seq<char>,
    buyer_is_maker: bool,
    trade_id: u64,
    now: u64,
) -> Option<MarketEventV> {
    let sfx = "@trade"@;
    if ends_with_spec(stream, sfx) && stream.len() >= sfx.len() + 4 && parse_fixed_spec(
        price,
    ) is Some && parse_fixed_spec(quantity) is Some {
        let sym = stream.subrange(0, stream.len() - sfx.len());
        Some(
            MarketEventV {
                exchange: ExchangeId::Binance,
                instrument: binance_instrument_spec(sym),
                kind: MarketDataKindV::Trade(
                    PublicTradeV {
                        id: decimal_digits(trade_id as int),
                        price: parse_fixed_spec(price).unwrap(),
                        quantity: parse_fixed_spec(quantity).unwrap(),
                        side: if buyer_is_maker {
                            Side::Sell
                        } else {
                            Side::Buy
                        },
                        timestamp: now,
                    },
                ),
                exchange_time: now,
                receipt_time: now,
            },
        )
    } else {
        None
    }
}

/// Shapes one trade-stream message into a market event from its plain
/// fields, as [`trade_event_spec`] says.
pub fn build_trade_event(
    stream: &str,
    price: &str,
    quantity: &str,
    buyer_is_maker: bool,
    trade_id: u64,
    now_micros: u64,
) -> (r: Option<MarketEvent>)
    ensures
        (match r {
            Some(e) => Some(e@),
            None => None,
        }) == trade_event_spec(stream@, price@, quantity@, buyer_is_maker, trade_id, now_micros),
{
    proof {
        reveal_strlit("@trade");
    }
    if !is_trade_stream(stream) {
        return None;
    }
    let n = stream.unicode_len();
    if n < 6 + 4 {
        return None;
    }
    let p = match parse_fixed(price) {
        Some(v) => v,
        None => {
            return None;
        },
    };
    let q = match parse_fixed(quantity) {
        Some(v) => v,
        None => {
            return None;
        },
    };
    let instrument = binance_instrument(stream, n - 6);
    let event = MarketEvent {
        exchange: ExchangeId::Binance,
        instrument,
        kind: MarketDataKind::Trade(
            PublicTrade {
                id: u64_to_string(trade_id),
                price: p,
                quantity: q,
                side: if buyer_is_maker {
                    Side::Sell
                } else {
                    Side::Buy
                },
                timestamp: now_micros,
            },
        ),
        exchange_time: now_micros,
        receipt_time: now_micros,
    };
    Some(event)
}

/// The market event shaped from one depth-stream message, given the best
/// bid and ask as plain strings; nothing when the stream name or a number
/// is malformed.
pub open spec fn l1_event_spec(
    stream: Seq<char>,
    bid_price: Seq<char>,
    bid_quantity: Seq<char>,
    ask_price: Seq<char>,
    ask_quantity: Seq<char>,
    now: u64,
) -> Option<MarketEventV> {
    let sfx = "@depth20"@;
    if ends_with_spec(stream, sfx) && stream.len() >= sfx.len() + 4 && parse_fixed_spec(
        bid_price,
    ) is Some && parse_fixed_spec(bid_quantity) is Some && parse_fixed_spec(ask_price) is Some
        && parse_fixed_spec(ask_quantity) is Some {
        let sym = stream.subrange(0, stream.len() - sfx.len());
        Some(
            MarketEventV {
                exchange: ExchangeId::Binance,
                instrument: binance_instrument_spec(sym),
                kind: MarketDataKindV::OrderBookL1(
                    OrderBookL1 {
                        bid_price: parse_fixed_spec(bid_price).unwrap(),
                        bid_quantity: parse_fixed_spec(bid_quantity).unwrap(),
                        ask_price: parse_fixed_spec(ask_price).unwrap(),
                        ask_quantity: parse_fixed_spec(ask_quantity).unwrap(),
                        timestamp: now,
                    },
                ),
                exchange_time: now,
                receipt_time: now,
            },
        )
    } else {
        None
    }
}

/// Shapes one depth-stream message into a best-bid/ask market event from
/// its plain fields, as [`l1_event_spec`] says.
pub fn build_l1_event(
    stream: &str,
    bid_price: &str,
    bid_quantity: &str,
    ask_price: &str,
    ask_quantity: &str,
    now_micros: u64,
) -> (r: Option<MarketEvent>)
    ensures
        (match r {
            Some(e) => Some(e@),
            None => None,
        }) == l1_event_spec(
            stream@,
            bid_price@,
            bid_quantity@,
            ask_price@,
            ask_quantity@,
            now_micros,
        ),
{
    proof {
        reveal_strlit("@depth20");
    }
    if !is_depth_stream(stream) {
        return None;
    }
    let n = stream.unicode_len();
    if n < 8 + 4 {
        return None;
    }
    let bp = match parse_fixed(bid_price) {
        Some(v) => v,
        None => {
            return None;
        },
    };
    let bq = match parse_fixed(bid_quantity) {
        Some(v) => v,
        None => {
            return None;
        },
    };
    let ap = match parse_fixed(ask_price) {
        Some(v) => v,
        None => {
            return None;
        },
    };
    let aq = match parse_fixed(ask_quantity) {
        Some(v) => v,
        None => {
            return None;
        },
    };
    let instrument = binance_instrument(stream, n - 8);
    let event = MarketEvent {
        exchange: ExchangeId::Binance,
        instrument,
        kind: MarketDataKind::OrderBookL1(
            OrderBookL1 {
                bid_price: bp,
                bid_quantity: bq,
                ask_price: ap,
                ask_quantity: aq,
                timestamp: now_micros,
            },
        ),
        exchange_time: now_micros,
        receipt_time: now_micros,
    };
    Some(event)
}

} // verus!
