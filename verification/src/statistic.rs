//! Performance statistics: running latency figures and order counters.
//!
//! Latencies are microseconds; monetary figures (profit and loss,
//! drawdown) are fixed-point amounts.
use vstd::arithmetic::div_mod::lemma_div_is_ordered;
use vstd::arithmetic::div_mod::lemma_div_multiples_vanish;
use vstd::prelude::*;

verus! {

/// Performance metrics of the processing pipeline.
#[derive(Debug, Copy, Clone, PartialEq, Eq, Structural)]
pub struct PerformanceMetrics {
    /// Total number of events processed.
    pub events_processed: u64,
    /// Running average processing latency, microseconds.
    pub avg_latency_micros: u64,
    /// Largest processing latency seen, microseconds.
    pub max_latency_micros: u64,
    /// Smallest processing latency seen, microseconds.
    pub min_latency_micros: u64,
    /// Orders sent, counted on explicit notification.
    pub orders_sent: u64,
    /// Orders filled, counted on explicit notification.
    pub orders_filled: u64,
    /// Orders cancelled, counted on explicit notification.
    pub orders_cancelled: u64,
    /// Cumulative profit and loss, fixed-point.
    pub pnl: i64,
    /// Sharpe ratio, fixed-point.
    pub sharpe_ratio: i64,
    /// Maximum drawdown, fixed-point.
    pub max_drawdown: i64,
}

/// A fresh accumulator: no events, zero average and maximum, and the
/// largest representable minimum, so the very first sample sets all
/// three latency figures.
pub open spec fn init_metrics() -> PerformanceMetrics {
    PerformanceMetrics {
        events_processed: 0,
        avg_latency_micros: 0,
        max_latency_micros: 0,
        min_latency_micros: u64::MAX,
        orders_sent: 0,
        orders_filled: 0,
        orders_cancelled: 0,
        pnl: 0,
        sharpe_ratio: 0,
        max_drawdown: 0,
    }
}

/// One latency sample folded into the accumulator: the event count grows
/// by one, the extremes absorb the sample, and the average becomes
/// `(avg * (n - 1) + x) / n` for the new count `n` — an incremental
/// mean with integer division.
pub open spec fn latency_updated(m: PerformanceMetrics, x: u64) -> PerformanceMetrics
    recommends
        m.events_processed < u64::MAX,
{
    let n = m.events_processed + 1;
    PerformanceMetrics {
        events_processed: n as u64,
        avg_latency_micros: ((m.avg_latency_micros * m.events_processed + x) / n) as u64,
        max_latency_micros: if x > m.max_latency_micros {
            x
        } else {
            m.max_latency_micros
        },
        min_latency_micros: if x < m.min_latency_micros {
            x
        } else {
            m.min_latency_micros
        },
        ..m
    }
}

impl PerformanceMetrics {
    /// Create a fresh accumulator.
    pub fn new() -> (r: Self)
        ensures
            r == init_metrics(),
    {
        PerformanceMetrics {
            events_processed: 0,
            avg_latency_micros: 0,
            max_latency_micros: 0,
            min_latency_micros: u64::MAX,
            orders_sent: 0,
            orders_filled: 0,
            orders_cancelled: 0,
            pnl: 0,
            sharpe_ratio: 0,
            max_drawdown: 0,
        }
    }

    /// Fold one latency sample in, as [`latency_updated`] says. The
    /// average never exceeds the largest sample, so the arithmetic is
    /// exact at full `u64` range.
    pub fn update_latency(&mut self, latency_micros: u64)
        requires
            old(self).events_processed < u64::MAX,
        ensures
            *final(self) == latency_updated(*old(self), latency_micros),
            old(self).events_processed == 0 ==> final(self).avg_latency_micros == latency_micros,
    {
        let prev_count = self.events_processed;
        let prev_avg = self.avg_latency_micros;
        let n = prev_count + 1;
        self.events_processed = n;
        if latency_micros > self.max_latency_micros {
            self.max_latency_micros = latency_micros;
        }
        if latency_micros < self.min_latency_micros {
            self.min_latency_micros = latency_micros;
        }
        proof {
            vstd::arithmetic::mul::lemma_mul_upper_bound(
                prev_avg as int,
                u64::MAX as int,
                prev_count as int,
                u64::MAX as int,
            );
        }
        let num: u128 = (prev_avg as u128) * (prev_count as u128) + (latency_micros as u128);
        let avg128: u128 = num / (n as u128);
        proof {
            let bound: int = if prev_avg >= latency_micros {
                prev_avg as int
            } else {
                latency_micros as int
            };
            assert(num as int <= bound * (n as int)) by (nonlinear_arith)
                requires
                    num as int == (prev_avg as int) * (prev_count as int) + (latency_micros as int),
                    n as int == prev_count as int + 1,
                    prev_avg as int <= bound,
                    latency_micros as int <= bound,
                    prev_count as int >= 0,
                    bound >= 0,
            ;
            lemma_div_is_ordered(num as int, bound * (n as int), n as int);
            lemma_div_multiples_vanish(bound, n as int);
            assert(bound * (n as int) == (n as int) * bound) by (nonlinear_arith);
            assert(avg128 as int <= bound);
        }
        self.avg_latency_micros = avg128 as u64;
        proof {
            assert(*final(self) == latency_updated(*old(self), latency_micros));
            if old(self).events_processed == 0 {
                assert(num as int == latency_micros as int);
                assert((latency_micros as int) / 1 == latency_micros as int) by (nonlinear_arith);
            }
        }
    }

    /// Record an order sent.
    pub fn record_order_sent(&mut self)
        requires
            old(self).orders_sent < u64::MAX,
        ensures
            *final(self) == (PerformanceMetrics {
                orders_sent: (old(self).orders_sent + 1) as u64,
                ..*old(self)
            }),
    {
        self.orders_sent = self.orders_sent + 1;
    }

    /// Record an order filled.
    pub fn record_order_filled(&mut self)
        requires
            old(self).orders_filled < u64::MAX,
        ensures
            *final(self) == (PerformanceMetrics {
                orders_filled: (old(self).orders_filled + 1) as u64,
                ..*old(self)
            }),
    {
        self.orders_filled = self.orders_filled + 1;
    }

    /// Record an order cancelled.
    pub fn record_order_cancelled(&mut self)
        requires
            old(self).orders_cancelled < u64::MAX,
        ensures
            *final(self) == (PerformanceMetrics {
                orders_cancelled: (old(self).orders_cancelled + 1) as u64,
                ..*old(self)
            }),
    {
        self.orders_cancelled = self.orders_cancelled + 1;
    }

    /// Add a signed change to the cumulative profit and loss.
    pub fn update_pnl(&mut self, pnl_change: i64)
        requires
            i64::MIN <= old(self).pnl + pnl_change <= i64::MAX,
        ensures
            *final(self) == (PerformanceMetrics {
                pnl: (old(self).pnl + pnl_change) as i64,
                ..*old(self)
            }),
    {
        self.pnl = self.pnl + pnl_change;
    }
}

impl Default for PerformanceMetrics {
    fn default() -> (r: Self)
        ensures
            r == init_metrics(),
    {
        PerformanceMetrics::new()
    }
}

/// The average after a single sample is exactly that sample; after two
/// samples into a fresh accumulator it is the floor of their half-sum.
pub proof fn lemma_latency_average_of_first_two(a: u64, b: u64)
    ensures
        latency_updated(init_metrics(), a).avg_latency_micros == a,
        latency_updated(latency_updated(init_metrics(), a), b).avg_latency_micros == ((a + b) / 2)
            as u64,
{
    let m1 = latency_updated(init_metrics(), a);
    assert(0 * 0 + a == a as int);
    assert((a as int) / 1 == a as int) by (nonlinear_arith);
    assert(m1.avg_latency_micros == a && m1.events_processed == 1);
    assert((a as int) * 1 == a as int);
}

/// Summary of a trading period.
#[derive(Debug, Copy, Clone, PartialEq, Eq, Structural)]
pub struct TradingSummary {
    /// Metrics over the period.
    pub metrics: PerformanceMetrics,
    /// Period start, microseconds.
    pub start_time: u64,
    /// Period end, microseconds.
    pub end_time: u64,
    /// Period length, microseconds; zero when the end precedes the
    /// start.
    pub duration_micros: u64,
}

impl TradingSummary {
    pub fn new(metrics: PerformanceMetrics, start_time: u64, end_time: u64) -> (r: Self)
        ensures
            r.metrics == metrics,
            r.start_time == start_time,
            r.end_time == end_time,
            end_time >= start_time ==> r.duration_micros == end_time - start_time,
            end_time < start_time ==> r.duration_micros == 0,
    {
        let duration_micros = if end_time >= start_time {
            end_time - start_time
        } else {
            0
        };
        TradingSummary { metrics, start_time, end_time, duration_micros }
    }
}

} // verus!
