//! Core types of a single-process trading pipeline: timestamped market events
//! run through a pluggable strategy, its order requests pass a risk-control
//! gate, and latency/throughput statistics accumulate along the way.
//!
//! Monetary amounts (prices, quantities, notionals) are fixed-point values
//! with four decimal places: the `u64` representation holds the amount
//! multiplied by `fixed::SCALE`. Timestamps are microseconds as `u64`.
use vstd::prelude::*;

pub use config::SystemConfig;
pub use data::MarketDataKind;
pub use data::MarketEvent;
pub use engine::Engine;
pub use engine::EngineConfig;
pub use engine::EngineState;
pub use execution::ExecutionClient;
pub use execution::ExecutionEvent;
pub use execution::OrderRequest;
pub use risk::DefaultRiskManager;
pub use risk::RiskLimits;
pub use risk::RiskManager;
pub use strategy::DefaultStrategy;
pub use strategy::Strategy;

pub mod config;
pub mod data;
pub mod engine;
pub mod execution;
pub mod fixed;
pub mod risk;
pub mod statistic;
pub mod strategy;

verus! {

/// A value paired with the microsecond timestamp at which it was taken.
#[derive(Debug, Copy, Clone, PartialEq, Eq, Hash)]
pub struct Timed<T> {
    pub value: T,
    pub time: u64,
}

impl<T> Timed<T> {
    pub fn new(value: T, time: u64) -> (r: Timed<T>)
        ensures
            r.value == value,
            r.time == time,
    {
        Timed { value, time }
    }
}

/// Monotonically increasing sequence number for event tracking.
#[derive(Debug, Copy, Clone, Eq, PartialEq, Hash, Structural)]
pub struct Sequence(pub u64);

impl Sequence {
    /// Current value of the counter.
    pub fn value(&self) -> (v: u64)
        ensures
            v == self.0,
    {
        self.0
    }

    /// Advances the counter by one and returns its previous value.
    pub fn fetch_add(&mut self) -> (prev: Sequence)
        requires
            old(self).0 < u64::MAX,
        ensures
            final(self).0 == old(self).0 + 1,
            prev == *old(self),
    {
        let sequence = *self;
        self.0 = self.0 + 1;
        sequence
    }
}

/// Shutdown signal.
#[derive(Debug, Copy, Clone, PartialEq, Eq, Hash, Structural)]
pub struct Shutdown;

/// Any event the engine processes: a shutdown signal, a market event, or
/// an execution event.
#[derive(Debug, PartialEq)]
pub enum SystemEvent {
    Shutdown(Shutdown),
    Market(data::MarketEvent),
    Execution(execution::ExecutionEvent),
}

/// Mathematical model of a [`SystemEvent`].
pub enum SystemEventV {
    Shutdown,
    Market(data::MarketEventV),
    Execution(execution::ExecutionEventV),
}

impl View for SystemEvent {
    type V = SystemEventV;

    open spec fn view(&self) -> SystemEventV {
        match self {
            SystemEvent::Shutdown(_) => SystemEventV::Shutdown,
            SystemEvent::Market(e) => SystemEventV::Market(e@),
            SystemEvent::Execution(e) => SystemEventV::Execution(e@),
        }
    }
}

impl SystemEvent {
    /// The shutdown signal.
    pub fn shutdown() -> (r: Self)
        ensures
            r@ is Shutdown,
    {
        SystemEvent::Shutdown(Shutdown)
    }
}

} // verus!
