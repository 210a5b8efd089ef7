//! Configuration of the trading system: risk limits, instruments,
//! execution and data-feed defaults. Persistence lives outside the
//! library; the pipeline does not validate cross-field consistency.
use crate::data::InstrumentId;
use crate::execution::OrderType;
use crate::risk::RiskLimits;
use vstd::prelude::*;
use vstd::string::StringExecFns;

verus! {

/// System configuration.
#[derive(Debug)]
pub struct SystemConfig {
    /// Risk limits.
    pub risk_limits: RiskLimits,
    /// Instruments to trade.
    pub instruments: Vec<InstrumentConfig>,
    /// Execution configuration.
    pub execution: ExecutionConfig,
    /// Data configuration.
    pub data: DataConfig,
}

/// Per-instrument configuration. Amounts are fixed-point.
#[derive(Debug)]
pub struct InstrumentConfig {
    /// Instrument identifier.
    pub instrument: InstrumentId,
    /// Enabled for trading.
    pub enabled: bool,
    /// Base currency.
    pub base_currency: String,
    /// Quote currency.
    pub quote_currency: String,
    /// Minimum order size.
    pub min_order_size: u64,
    /// Tick size.
    pub tick_size: u64,
    /// Maximum position size.
    pub max_position_size: u64,
}

/// Execution configuration.
#[derive(Debug)]
pub struct ExecutionConfig {
    /// Default order type.
    pub default_order_type: OrderType,
    /// Default time in force, by name.
    pub default_time_in_force: String,
    /// Enable order aggregation.
    pub enable_order_aggregation: bool,
    /// Order aggregation timeout, milliseconds.
    pub order_aggregation_timeout_ms: u64,
}

/// Data-feed configuration.
#[derive(Debug)]
pub struct DataConfig {
    /// Enable market data streaming.
    pub enable_market_data: bool,
    /// Market data kinds to subscribe to, by name.
    pub market_data_types: Vec<String>,
    /// Update frequency, milliseconds.
    pub update_frequency_ms: u64,
    /// Enable historical data loading.
    pub enable_historical_data: bool,
}

impl Default for SystemConfig {
    /// Default limits, no instruments, limit orders good-till-cancelled
    /// with aggregation, and a trades plus level-one book subscription.
    fn default() -> (r: Self)
        ensures
            r.risk_limits == (RiskLimits {
                max_position_size: 1000000,
                max_notional_exposure: 1000000000,
                max_orders_per_second: 100,
                max_order_size: 100000,
                enable_circuit_breaker: true,
                max_drawdown_percent: 50000,
            }),
            r.instruments@.len() == 0,
            r.execution.default_order_type == OrderType::Limit,
            r.execution.default_time_in_force@ == "GTC"@,
            r.execution.enable_order_aggregation == true,
            r.execution.order_aggregation_timeout_ms == 10,
            r.data.enable_market_data == true,
            r.data.market_data_types@.len() == 2,
            r.data.market_data_types@[0]@ == "trades"@,
            r.data.market_data_types@[1]@ == "orderbook_l1"@,
            r.data.update_frequency_ms == 100,
            r.data.enable_historical_data == false,
    {
        let mut market_data_types: Vec<String> = Vec::new();
        market_data_types.push(String::from_str("trades"));
        market_data_types.push(String::from_str("orderbook_l1"));
        SystemConfig {
            risk_limits: RiskLimits::default(),
            instruments: Vec::new(),
            execution: ExecutionConfig {
                default_order_type: OrderType::Limit,
                default_time_in_force: String::from_str("GTC"),
                enable_order_aggregation: true,
                order_aggregation_timeout_ms: 10,
            },
            data: DataConfig {
                enable_market_data: true,
                market_data_types,
                update_frequency_ms: 100,
                enable_historical_data: false,
            },
        }
    }
}

} // verus!
