//! Risk control: per-order checks against configured limits, with a
//! coarse one-second order-rate window and cumulative notional exposure.
//!
//! Exposure and notionals are held to `SCALE * SCALE` precision (the
//! product of two fixed-point amounts), so the arithmetic is exact.
use crate::execution::OrderRequest;
use crate::execution::OrderRequestV;
use crate::fixed::SCALE;
use crate::strategy::StrategyOutput;
use crate::strategy::StrategyOutputV;
use vstd::arithmetic::mul::lemma_mul_nonnegative;
use vstd::arithmetic::mul::lemma_mul_upper_bound;
use vstd::prelude::*;
use vstd::string::StringExecFns;

verus! {

/// Verdict of a risk check for one order.
#[derive(Debug, PartialEq)]
pub struct RiskCheckResult {
    /// Whether the order is approved.
    pub approved: bool,
    /// Reason for rejection, when not approved.
    pub reason: Option<String>,
    /// Modified order, when approved with modifications; the reference
    /// gate never modifies.
    pub modified_order: Option<OrderRequest>,
}

/// Mathematical model of a [`RiskCheckResult`].
pub struct RiskCheckResultV {
    pub approved: bool,
    pub reason: Option<Seq<char>>,
    pub modified_order: Option<OrderRequestV>,
}

impl View for RiskCheckResult {
    type V = RiskCheckResultV;

    open spec fn view(&self) -> RiskCheckResultV {
        RiskCheckResultV {
            approved: self.approved,
            reason: match self.reason {
                Some(s) => Some(s@),
                None => None,
            },
            modified_order: match self.modified_order {
                Some(o) => Some(o@),
                None => None,
            },
        }
    }
}

/// Risk limits configuration. Amounts are fixed-point.
#[derive(Debug, Copy, Clone, PartialEq, Eq, Structural)]
pub struct RiskLimits {
    /// Maximum position size per instrument.
    pub max_position_size: u64,
    /// Maximum cumulative notional exposure.
    pub max_notional_exposure: u64,
    /// Maximum approved orders per one-second window.
    pub max_orders_per_second: u32,
    /// Maximum size of a single order.
    pub max_order_size: u64,
    /// Enable circuit breaker.
    pub enable_circuit_breaker: bool,
    /// Maximum drawdown percentage.
    pub max_drawdown_percent: u64,
}

impl Default for RiskLimits {
    /// Position 100, exposure 100000, 100 orders per second, single
    /// order size 10, circuit breaker on, drawdown 5 percent.
    fn default() -> (r: Self)
        ensures
            r == (RiskLimits {
                max_position_size: 1000000,
                max_notional_exposure: 1000000000,
                max_orders_per_second: 100,
                max_order_size: 100000,
                enable_circuit_breaker: true,
                max_drawdown_percent: 50000,
            }),
    {
        RiskLimits {
            max_position_size: 1000000,
            max_notional_exposure: 1000000000,
            max_orders_per_second: 100,
            max_order_size: 100000,
            enable_circuit_breaker: true,
            max_drawdown_percent: 50000,
        }
    }
}

/// A risk gate: checks strategy output order by order against its limits.
/// Each implementation pins its behaviour through the two spec functions.
pub trait RiskManager: Sized {
    type Output;

    /// What a batch check did, per implementation.
    spec fn check_risk_ens(
        pre: Self,
        post: Self,
        strategy_output: StrategyOutputV,
        now_micros: u64,
        r: Self::Output,
    ) -> bool;

    /// What a single-order check did, per implementation.
    spec fn check_order_risk_ens(
        pre: Self,
        post: Self,
        order: OrderRequestV,
        now_micros: u64,
        r: RiskCheckResult,
    ) -> bool;

    /// Check every order of a strategy output, left to right.
    fn check_risk(&mut self, strategy_output: &StrategyOutput, now_micros: u64) -> (r: Self::Output)
        ensures
            Self::check_risk_ens(*old(self), *final(self), strategy_output@, now_micros, r),
    ;

    /// Check a single order.
    fn check_order_risk(&mut self, order: &OrderRequest, now_micros: u64) -> (r: RiskCheckResult)
        ensures
            Self::check_order_risk_ens(*old(self), *final(self), order@, now_micros, r),
    ;
}

/// Reference risk gate: fixed one-second rate window, single-order size
/// cap, and a cumulative notional exposure cap.
#[derive(Debug, Copy, Clone, PartialEq, Eq, Structural)]
pub struct DefaultRiskManager {
    /// Configured limits; never written by the checks themselves.
    pub limits: RiskLimits,
    /// Cumulative approved notional, to `SCALE * SCALE` precision.
    pub current_exposure: u128,
    /// Orders approved in the current one-second window.
    pub orders_this_second: u32,
    /// Start of the current window, microseconds.
    pub window_start_micros: u64,
}

impl Default for DefaultRiskManager {
    fn default() -> (r: Self)
        ensures
            r == (DefaultRiskManager {
                limits: RiskLimits {
                    max_position_size: 1000000,
                    max_notional_exposure: 1000000000,
                    max_orders_per_second: 100,
                    max_order_size: 100000,
                    enable_circuit_breaker: true,
                    max_drawdown_percent: 50000,
                },
                current_exposure: 0,
                orders_this_second: 0,
                window_start_micros: 0,
            }),
    {
        DefaultRiskManager {
            limits: RiskLimits::default(),
            current_exposure: 0,
            orders_this_second: 0,
            window_start_micros: 0,
        }
    }
}

/// The notional an order binds, to `SCALE * SCALE` precision: price times
/// quantity when a limit price is present, else the quantity alone as a
/// conservative proxy.
pub open spec fn notional_spec(order: OrderRequestV) -> int {
    match order.price {
        Some(p) => p * order.quantity,
        None => order.quantity * (SCALE as int),
    }
}

/// The configured exposure cap, to `SCALE * SCALE` precision.
pub open spec fn exposure_cap(limits: RiskLimits) -> int {
    limits.max_notional_exposure * (SCALE as int)
}

/// True when at least one second has passed since the window started.
pub open spec fn window_elapsed(g: DefaultRiskManager, now_micros: u64) -> bool {
    now_micros >= g.window_start_micros + 1000000
}

/// A rejection with the given reason.
pub open spec fn rejection(reason: Seq<char>) -> RiskCheckResultV {
    RiskCheckResultV { approved: false, reason: Some(reason), modified_order: None }
}

/// An approval without modification.
pub open spec fn approval() -> RiskCheckResultV {
    RiskCheckResultV { approved: true, reason: None, modified_order: None }
}

/// One check of the reference gate: reset the window if it elapsed, then
/// the first failing limit wins — order size, order rate, notional
/// exposure — else approve and consume rate and exposure budget.
pub open spec fn gate_step(g: DefaultRiskManager, order: OrderRequestV, now_micros: u64) -> (
    DefaultRiskManager,
    RiskCheckResultV,
) {
    let g1 = if window_elapsed(g, now_micros) {
        DefaultRiskManager { orders_this_second: 0, window_start_micros: now_micros, ..g }
    } else {
        g
    };
    if order.quantity > g1.limits.max_order_size {
        (g1, rejection("Order size exceeds limit"@))
    } else if g1.orders_this_second >= g1.limits.max_orders_per_second {
        (g1, rejection("Order rate limit exceeded"@))
    } else if g1.current_exposure + notional_spec(order) > exposure_cap(g1.limits) {
        (g1, rejection("Notional exposure limit exceeded"@))
    } else {
        (
            DefaultRiskManager {
                orders_this_second: (g1.orders_this_second + 1) as u32,
                current_exposure: (g1.current_exposure + notional_spec(order)) as u128,
                ..g1
            },
            approval(),
        )
    }
}

/// The reference gate over a whole batch, first order first: earlier
/// orders consume budget that later orders in the same batch see.
pub open spec fn gate_run(g: DefaultRiskManager, orders: Seq<OrderRequestV>, now_micros: u64) -> (
    DefaultRiskManager,
    Seq<RiskCheckResultV>,
)
    decreases orders.len(),
{
    if orders.len() == 0 {
        (g, Seq::empty())
    } else {
        let first = gate_step(g, orders[0], now_micros);
        let rest = gate_run(first.0, orders.drop_first(), now_micros);
        (rest.0, seq![first.1] + rest.1)
    }
}

/// `gate_run` extended by one more order at the back.
proof fn lemma_gate_run_snoc(g: DefaultRiskManager, orders: Seq<OrderRequestV>, now_micros: u64)
    requires
        orders.len() > 0,
    ensures
        ({
            let prior = gate_run(g, orders.drop_last(), now_micros);
            let step = gate_step(prior.0, orders.last(), now_micros);
            gate_run(g, orders, now_micros).0 == step.0 && gate_run(g, orders, now_micros).1
                == prior.1.push(step.1)
        }),
    decreases orders.len(),
{
    if orders.len() == 1 {
        let step = gate_step(g, orders[0], now_micros);
        let rest = gate_run(step.0, orders.drop_first(), now_micros);
        assert(orders.drop_first().len() == 0);
        assert(rest.0 == step.0 && rest.1 == Seq::<RiskCheckResultV>::empty());
        assert(gate_run(g, orders, now_micros).1 == seq![step.1] + rest.1);
        let prior = gate_run(g, orders.drop_last(), now_micros);
        assert(orders.drop_last().len() == 0);
        assert(prior.0 == g && prior.1 == Seq::<RiskCheckResultV>::empty());
        assert(orders.last() == orders[0]);
        assert(seq![step.1] + rest.1 =~= prior.1.push(step.1));
    } else {
        let first = gate_step(g, orders[0], now_micros);
        let tail = orders.drop_first();
        lemma_gate_run_snoc(first.0, tail, now_micros);
        assert(tail.drop_last() =~= orders.drop_last().drop_first());
        assert(tail.last() == orders.last());
        assert(orders.drop_last()[0] == orders[0]);
        let prior = gate_run(g, orders.drop_last(), now_micros);
        let prior_tail = gate_run(first.0, orders.drop_last().drop_first(), now_micros);
        assert(prior.1 == seq![first.1] + prior_tail.1);
        let step = gate_step(prior.0, orders.last(), now_micros);
        assert(gate_run(g, orders, now_micros).1 == seq![first.1] + gate_run(
            first.0,
            tail,
            now_micros,
        ).1);
        assert(gate_run(first.0, tail, now_micros).1 == prior_tail.1.push(step.1));
        assert(seq![first.1] + prior_tail.1.push(step.1) =~= (seq![first.1] + prior_tail.1).push(
            step.1,
        ));
    }
}

impl RiskManager for DefaultRiskManager {
    type Output = Vec<RiskCheckResult>;

    /// The final state and the verdicts are exactly those of
    /// [`gate_run`] over the batch.
    open spec fn check_risk_ens(
        pre: Self,
        post: Self,
        strategy_output: StrategyOutputV,
        now_micros: u64,
        r: Vec<RiskCheckResult>,
    ) -> bool {
        &&& post == gate_run(pre, strategy_output.orders, now_micros).0
        &&& r@.map_values(|x: RiskCheckResult| x@) == gate_run(
            pre,
            strategy_output.orders,
            now_micros,
        ).1
    }

    /// The new state and the verdict are exactly those of [`gate_step`].
    open spec fn check_order_risk_ens(
        pre: Self,
        post: Self,
        order: OrderRequestV,
        now_micros: u64,
        r: RiskCheckResult,
    ) -> bool {
        &&& post == gate_step(pre, order, now_micros).0
        &&& r@ == gate_step(pre, order, now_micros).1
    }

    fn check_risk(&mut self, strategy_output: &StrategyOutput, now_micros: u64) -> (r: Vec<
        RiskCheckResult,
    >) {
        let ghost all = strategy_output@.orders;
        let mut results: Vec<RiskCheckResult> = Vec::new();
        let mut i: usize = 0;
        while i < strategy_output.orders.len()
            invariant
                0 <= i <= strategy_output.orders.len(),
                all == strategy_output@.orders,
                all.len() == strategy_output.orders@.len(),
                forall|j: int|
                    0 <= j < all.len() ==> all[j] == (#[trigger] strategy_output.orders@[j])@,
                *self == gate_run(*old(self), all.subrange(0, i as int), now_micros).0,
                results@.map_values(|x: RiskCheckResult| x@) == gate_run(
                    *old(self),
                    all.subrange(0, i as int),
                    now_micros,
                ).1,
            decreases strategy_output.orders.len() - i,
        {
            let ghost prefix = all.subrange(0, i as int);
            let ghost before = *self;
            let verdict = self.check_order_risk(&strategy_output.orders[i], now_micros);
            results.push(verdict);
            proof {
                let next = all.subrange(0, i as int + 1);
                assert(next.drop_last() =~= prefix);
                assert(next.last() == all[i as int]);
                lemma_gate_run_snoc(*old(self), next, now_micros);
                assert(results@.map_values(|x: RiskCheckResult| x@) =~= gate_run(
                    *old(self),
                    next,
                    now_micros,
                ).1);
            }
            i = i + 1;
        }
        proof {
            assert(all.subrange(0, all.len() as int) =~= all);
        }
        results
    }

    fn check_order_risk(&mut self, order: &OrderRequest, now_micros: u64) -> (r: RiskCheckResult) {
        // Reset the order count when the one-second window has elapsed.
        if now_micros >= self.window_start_micros && now_micros - self.window_start_micros
            >= 1000000 {
            self.orders_this_second = 0;
            self.window_start_micros = now_micros;
        }
        // Single-order size limit.
        if order.quantity > self.limits.max_order_size {
            return RiskCheckResult {
                approved: false,
                reason: Some(String::from_str("Order size exceeds limit")),
                modified_order: None,
            };
        }
        // Order-rate limit.
        if self.orders_this_second >= self.limits.max_orders_per_second {
            return RiskCheckResult {
                approved: false,
                reason: Some(String::from_str("Order rate limit exceeded")),
                modified_order: None,
            };
        }
        // Notional exposure limit.
        let notional: u128 = match order.price {
            Some(p) => {
                proof {
                    lemma_mul_upper_bound(
                        p as int,
                        u64::MAX as int,
                        order.quantity as int,
                        u64::MAX as int,
                    );
                    lemma_mul_nonnegative(p as int, order.quantity as int);
                }
                (p as u128) * (order.quantity as u128)
            },
            None => (order.quantity as u128) * (SCALE as u128),
        };
        let cap: u128 = (self.limits.max_notional_exposure as u128) * (SCALE as u128);
        if self.current_exposure > cap || notional > cap - self.current_exposure {
            return RiskCheckResult {
                approved: false,
                reason: Some(String::from_str("Notional exposure limit exceeded")),
                modified_order: None,
            };
        }
        // All checks passed: consume rate and exposure budget.
        self.orders_this_second = self.orders_this_second + 1;
        self.current_exposure = self.current_exposure + notional;
        RiskCheckResult { approved: true, reason: None, modified_order: None }
    }
}

/// The total notional a batch binds.
pub open spec fn sum_notional(orders: Seq<OrderRequestV>) -> int
    decreases orders.len(),
{
    if orders.len() == 0 {
        0
    } else {
        notional_spec(orders[0]) + sum_notional(orders.drop_first())
    }
}

proof fn lemma_notional_nonneg(order: OrderRequestV)
    ensures
        notional_spec(order) >= 0,
{
    match order.price {
        Some(p) => {
            lemma_mul_nonnegative(p as int, order.quantity as int);
        },
        None => {
            lemma_mul_nonnegative(order.quantity as int, SCALE as int);
        },
    }
}

proof fn lemma_sum_notional_nonneg(orders: Seq<OrderRequestV>)
    ensures
        sum_notional(orders) >= 0,
    decreases orders.len(),
{
    if orders.len() > 0 {
        lemma_notional_nonneg(orders[0]);
        lemma_sum_notional_nonneg(orders.drop_first());
    }
}

/// An order whose quantity exceeds the configured maximum single-order
/// size is always rejected, whatever the exposure and window state.
pub proof fn lemma_oversized_order_rejected(
    g: DefaultRiskManager,
    order: OrderRequestV,
    now_micros: u64,
)
    requires
        order.quantity > g.limits.max_order_size,
    ensures
        !gate_step(g, order, now_micros).1.approved,
        gate_step(g, order, now_micros).1.reason == Some("Order size exceeds limit"@),
{
}

/// After a window reset, the approved-order counter restarts from zero:
/// it ends at one when this order is approved and at zero when not, and
/// the window clock restarts at the given time.
pub proof fn lemma_window_reset_restarts_count(
    g: DefaultRiskManager,
    order: OrderRequestV,
    now_micros: u64,
)
    requires
        window_elapsed(g, now_micros),
    ensures
        gate_step(g, order, now_micros).0.orders_this_second == if gate_step(
            g,
            order,
            now_micros,
        ).1.approved {
            1int
        } else {
            0int
        },
        gate_step(g, order, now_micros).0.window_start_micros == now_micros,
{
}

/// Feeding one more order than the per-second limit within one window,
/// when every order passes the size check and the batch fits within the
/// exposure cap, approves all but the last and rejects exactly that one,
/// for the rate limit.
pub proof fn lemma_rate_limit_burst(
    g: DefaultRiskManager,
    orders: Seq<OrderRequestV>,
    now_micros: u64,
)
    requires
        !window_elapsed(g, now_micros),
        g.orders_this_second == 0,
        orders.len() == g.limits.max_orders_per_second + 1,
        forall|i: int|
            0 <= i < orders.len() ==> (#[trigger] orders[i]).quantity <= g.limits.max_order_size,
        g.current_exposure + sum_notional(orders) <= exposure_cap(g.limits),
    ensures
        gate_run(g, orders, now_micros).1.len() == orders.len(),
        forall|i: int|
            0 <= i < orders.len() - 1 ==> (#[trigger] gate_run(g, orders, now_micros).1[i]).approved,
        !gate_run(g, orders, now_micros).1[orders.len() - 1].approved,
        gate_run(g, orders, now_micros).1[orders.len() - 1].reason == Some(
            "Order rate limit exceeded"@,
        ),
{
    lemma_burst_general(g, orders, now_micros);
}

/// The inductive core of the burst law: when the remaining orders
/// exactly exhaust the remaining rate budget plus one, all but the last
/// are approved and the last is rejected for rate.
proof fn lemma_burst_general(g: DefaultRiskManager, orders: Seq<OrderRequestV>, now_micros: u64)
    requires
        !window_elapsed(g, now_micros),
        orders.len() >= 1,
        orders.len() + g.orders_this_second == g.limits.max_orders_per_second + 1,
        forall|i: int|
            0 <= i < orders.len() ==> (#[trigger] orders[i]).quantity <= g.limits.max_order_size,
        g.current_exposure + sum_notional(orders) <= exposure_cap(g.limits),
    ensures
        gate_run(g, orders, now_micros).1.len() == orders.len(),
        forall|i: int|
            0 <= i < orders.len() - 1 ==> (#[trigger] gate_run(g, orders, now_micros).1[i]).approved,
        !gate_run(g, orders, now_micros).1[orders.len() - 1].approved,
        gate_run(g, orders, now_micros).1[orders.len() - 1].reason == Some(
            "Order rate limit exceeded"@,
        ),
    decreases orders.len(),
{
    let step = gate_step(g, orders[0], now_micros);
    let rest = orders.drop_first();
    lemma_sum_notional_nonneg(rest);
    lemma_notional_nonneg(orders[0]);
    if orders.len() == 1 {
        // The rate budget is exhausted: this very order is rejected.
        assert(g.orders_this_second >= g.limits.max_orders_per_second);
        assert(step.1 == rejection("Order rate limit exceeded"@));
        let run_rest = gate_run(step.0, rest, now_micros);
        assert(rest.len() == 0);
        assert(run_rest.1 == Seq::<RiskCheckResultV>::empty());
        assert(gate_run(g, orders, now_micros).1 == seq![step.1] + run_rest.1);
        assert(gate_run(g, orders, now_micros).1 =~= seq![step.1]);
    } else {
        // Budget remains: this order passes every check.
        assert(g.orders_this_second < g.limits.max_orders_per_second);
        assert(g.current_exposure + notional_spec(orders[0]) <= exposure_cap(g.limits));
        assert(step.1.approved);
        let g1 = step.0;
        assert(!window_elapsed(g1, now_micros));
        assert(g1.current_exposure + sum_notional(rest) <= exposure_cap(g1.limits));
        lemma_burst_general(g1, rest, now_micros);
        let run = gate_run(g, orders, now_micros);
        let run_rest = gate_run(g1, rest, now_micros);
        assert(run.1 == seq![step.1] + run_rest.1);
        assert forall|i: int| 0 <= i < orders.len() - 1 implies (#[trigger] run.1[i]).approved by {
            if i > 0 {
                assert(run.1[i] == run_rest.1[i - 1]);
            }
        }
        assert(run.1[orders.len() - 1] == run_rest.1[rest.len() - 1]);
    }
}

} // verus!
