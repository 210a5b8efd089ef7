//! The engine: single owner of run-state, sequencing, and the per-event
//! pipeline from market event through strategy and risk gate to the
//! caller.
use crate::data::MarketEventV;
use crate::risk::gate_run;
use crate::risk::DefaultRiskManager;
use crate::risk::RiskCheckResultV;
use crate::risk::RiskManager;
use crate::statistic::init_metrics;
use crate::statistic::latency_updated;
use crate::statistic::PerformanceMetrics;
use crate::strategy::default_output_spec;
use crate::strategy::Strategy;
use crate::strategy::StrategyOutput;
use crate::strategy::StrategyOutputV;
use crate::Sequence;
use crate::SystemEvent;
use crate::SystemEventV;
use vstd::prelude::*;

verus! {

/// What one processed event hands back to the caller.
#[derive(Debug)]
pub struct EngineOutput<StratOut, RiskOut> {
    /// The strategy's output, for market events.
    pub strategy_output: Option<StratOut>,
    /// The risk gate's verdicts, for market events.
    pub risk_output: Option<RiskOut>,
    /// Snapshot of the metrics after this event.
    pub metrics: PerformanceMetrics,
}

/// Engine run-state.
#[derive(Debug, Copy, Clone, PartialEq, Eq, Structural, Hash)]
pub enum EngineState {
    /// Processing events normally.
    Running,
    /// Paused; the flag is advisory, processing is not blocked.
    Paused,
    /// Shut down; terminal.
    Shutdown,
}

/// Engine configuration.
#[derive(Debug, Copy, Clone, PartialEq, Eq, Structural)]
pub struct EngineConfig {
    /// Highest acceptable processing latency, microseconds.
    pub max_processing_latency_micros: u64,
    /// Enable performance monitoring.
    pub enable_performance_monitoring: bool,
    /// Enable detailed logging.
    pub enable_detailed_logging: bool,
}

impl Default for EngineConfig {
    fn default() -> (r: Self)
        ensures
            r == (EngineConfig {
                max_processing_latency_micros: 100,
                enable_performance_monitoring: true,
                enable_detailed_logging: false,
            }),
    {
        EngineConfig {
            max_processing_latency_micros: 100,
            enable_performance_monitoring: true,
            enable_detailed_logging: false,
        }
    }
}

/// Engine metadata: start time and per-event counters.
#[derive(Debug, Copy, Clone, PartialEq, Eq, Structural, Hash)]
pub struct EngineMeta {
    /// Engine start time, microseconds.
    pub start_time: u64,
    /// Monotonically increasing sequence for processed events.
    pub sequence: Sequence,
    /// Number of events processed.
    pub events_processed: u64,
}

/// How one event moves the engine metadata: market and execution events
/// advance both counters by exactly one, a shutdown signal touches
/// neither.
pub open spec fn meta_step(m: EngineMeta, event: SystemEventV) -> EngineMeta {
    match event {
        SystemEventV::Shutdown => m,
        SystemEventV::Market(_) => EngineMeta {
            sequence: Sequence((m.sequence.0 + 1) as u64),
            events_processed: (m.events_processed + 1) as u64,
            ..m
        },
        SystemEventV::Execution(_) => EngineMeta {
            sequence: Sequence((m.sequence.0 + 1) as u64),
            events_processed: (m.events_processed + 1) as u64,
            ..m
        },
    }
}

/// Relies on std::time::SystemTime::now and its distance from the Unix
/// epoch: the wall clock, as microseconds since that epoch (zero for a
/// clock reading before it). Nothing is promised of the value.
#[verifier::external_body]
fn now_micros() -> u64 {
    match std::time::SystemTime::now().duration_since(std::time::UNIX_EPOCH) {
        Ok(d) => d.as_micros() as u64,
        Err(_) => 0,
    }
}

/// The trading engine: owns one strategy, one risk gate, one execution
/// client handle, the metrics, and the run-state.
pub struct Engine<StrategyImpl, RiskManagerImpl, ExecutionClientImpl> {
    /// Current run-state.
    pub state: EngineState,
    /// Configuration.
    pub config: EngineConfig,
    /// Trading strategy.
    pub strategy: StrategyImpl,
    /// Risk gate.
    pub risk_manager: RiskManagerImpl,
    /// Execution client handle; the engine never submits orders itself.
    pub execution_client: ExecutionClientImpl,
    /// Performance metrics.
    pub metrics: PerformanceMetrics,
    /// Metadata: start time and counters.
    pub meta: EngineMeta,
}

impl<
    StrategyImpl: Strategy<Output = StrategyOutput>,
    RiskManagerImpl: RiskManager,
    ExecutionClientImpl,
> Engine<StrategyImpl, RiskManagerImpl, ExecutionClientImpl> {
    /// Create an engine in the running state with fresh metrics and
    /// zeroed counters.
    pub fn new(
        strategy: StrategyImpl,
        risk_manager: RiskManagerImpl,
        execution_client: ExecutionClientImpl,
        config: EngineConfig,
    ) -> (r: Self)
        ensures
            r.state == EngineState::Running,
            r.config == config,
            r.strategy == strategy,
            r.risk_manager == risk_manager,
            r.execution_client == execution_client,
            r.metrics == init_metrics(),
            r.meta.sequence.0 == 0,
            r.meta.events_processed == 0,
    {
        Engine {
            state: EngineState::Running,
            config,
            strategy,
            risk_manager,
            execution_client,
            metrics: PerformanceMetrics::new(),
            meta: EngineMeta { start_time: now_micros(), sequence: Sequence(0), events_processed: 0 },
        }
    }

    /// Process one system event.
    ///
    /// A shutdown signal makes the state terminal and changes nothing
    /// else. A market event runs strategy then risk gate and returns
    /// both outputs. An execution event is handed to the strategy. Both
    /// advance the counters by exactly one and fold the measured
    /// latency into the metrics.
    pub fn process_event(&mut self, event: SystemEvent) -> (r: EngineOutput<
        StrategyOutput,
        RiskManagerImpl::Output,
    >)
        requires
            old(self).meta.sequence.0 < u64::MAX,
            old(self).meta.events_processed < u64::MAX,
            old(self).metrics.events_processed < u64::MAX,
        ensures
            final(self).meta == meta_step(old(self).meta, event@),
            final(self).config == old(self).config,
            final(self).execution_client == old(self).execution_client,
            r.metrics == final(self).metrics,
            event@ is Shutdown ==> {
                &&& final(self).state == EngineState::Shutdown
                &&& final(self).metrics == old(self).metrics
                &&& final(self).strategy == old(self).strategy
                &&& final(self).risk_manager == old(self).risk_manager
                &&& r.strategy_output is None
                &&& r.risk_output is None
            },
            !(event@ is Shutdown) ==> {
                &&& final(self).state == old(self).state
                &&& exists|l: u64|
                    final(self).metrics == latency_updated(old(self).metrics, l)
            },
            (match event@ {
                SystemEventV::Market(me) => {
                    &&& r.strategy_output is Some
                    &&& r.risk_output is Some
                    &&& StrategyImpl::market_ens(
                        old(self).strategy,
                        final(self).strategy,
                        me,
                        r.strategy_output->0,
                    )
                    &&& exists|now: u64|
                        RiskManagerImpl::check_risk_ens(
                            old(self).risk_manager,
                            final(self).risk_manager,
                            (r.strategy_output->0)@,
                            now,
                            r.risk_output->0,
                        )
                },
                SystemEventV::Execution(ee) => {
                    &&& StrategyImpl::execution_ens(old(self).strategy, final(self).strategy, ee)
                    &&& final(self).risk_manager == old(self).risk_manager
                    &&& r.strategy_output is None
                    &&& r.risk_output is None
                },
                SystemEventV::Shutdown => true,
            }),
    {
        let start_micros = now_micros();
        let ghost event0 = event;
        match event {
            SystemEvent::Shutdown(_) => {
                proof {
                    assert(event0@ is Shutdown);
                }
                self.state = EngineState::Shutdown;
                EngineOutput { strategy_output: None, risk_output: None, metrics: self.metrics }
            },
            SystemEvent::Market(market_event) => {
                proof {
                    assert(event0@ == SystemEventV::Market(market_event@));
                }
                // Strategy, then risk gate over its output.
                let strategy_output = self.strategy.process_market_data(&market_event);
                let risk_output = self.risk_manager.check_risk(&strategy_output, start_micros);
                // Record latency and advance the counters.
                let end_micros = now_micros();
                self.metrics.update_latency(end_micros.saturating_sub(start_micros));
                self.meta.sequence.fetch_add();
                self.meta.events_processed = self.meta.events_processed + 1;
                let out = EngineOutput {
                    strategy_output: Some(strategy_output),
                    risk_output: Some(risk_output),
                    metrics: self.metrics,
                };
                proof {
                    assert(exists|now: u64|
                        RiskManagerImpl::check_risk_ens(
                            old(self).risk_manager,
                            self.risk_manager,
                            (out.strategy_output->0)@,
                            now,
                            out.risk_output->0,
                        )) by {
                        assert(RiskManagerImpl::check_risk_ens(
                            old(self).risk_manager,
                            self.risk_manager,
                            (out.strategy_output->0)@,
                            start_micros,
                            out.risk_output->0,
                        ));
                    }
                }
                out
            },
            SystemEvent::Execution(execution_event) => {
                proof {
                    assert(event0@ == SystemEventV::Execution(execution_event@));
                }
                self.strategy.process_execution_event(&execution_event);
                let end_micros = now_micros();
                self.metrics.update_latency(end_micros.saturating_sub(start_micros));
                self.meta.sequence.fetch_add();
                self.meta.events_processed = self.meta.events_processed + 1;
                EngineOutput { strategy_output: None, risk_output: None, metrics: self.metrics }
            },
        }
    }

    /// Pause the engine.
    pub fn pause(&mut self)
        ensures
            *final(self) == (Engine { state: EngineState::Paused, ..*old(self) }),
    {
        self.state = EngineState::Paused;
    }

    /// Resume the engine.
    pub fn resume(&mut self)
        ensures
            *final(self) == (Engine { state: EngineState::Running, ..*old(self) }),
    {
        self.state = EngineState::Running;
    }

    /// Shut the engine down; the state is terminal.
    pub fn shutdown(&mut self)
        ensures
            *final(self) == (Engine { state: EngineState::Shutdown, ..*old(self) }),
    {
        self.state = EngineState::Shutdown;
    }
}

/// The engine metadata after a whole sequence of events, first first.
pub open spec fn meta_after_run(m: EngineMeta, events: Seq<SystemEventV>) -> EngineMeta
    decreases events.len(),
{
    if events.len() == 0 {
        m
    } else {
        meta_after_run(meta_step(m, events[0]), events.drop_first())
    }
}

proof fn lemma_counters_after_run_general(m: EngineMeta, events: Seq<SystemEventV>)
    requires
        m.sequence.0 + events.len() <= u64::MAX,
        m.events_processed + events.len() <= u64::MAX,
        forall|i: int| 0 <= i < events.len() ==> !((#[trigger] events[i]) is Shutdown),
    ensures
        meta_after_run(m, events).sequence.0 == m.sequence.0 + events.len(),
        meta_after_run(m, events).events_processed == m.events_processed + events.len(),
        meta_after_run(m, events).start_time == m.start_time,
    decreases events.len(),
{
    if events.len() > 0 {
        assert(!(events[0] is Shutdown));
        lemma_counters_after_run_general(meta_step(m, events[0]), events.drop_first());
    }
}

/// Feeding any sequence of market and execution events to a fresh
/// engine, in order, leaves the events-processed count and the sequence
/// counter at exactly the number of events fed.
pub proof fn lemma_counters_count_events(m: EngineMeta, events: Seq<SystemEventV>)
    requires
        m.sequence.0 == 0,
        m.events_processed == 0,
        events.len() <= u64::MAX,
        forall|i: int| 0 <= i < events.len() ==> !((#[trigger] events[i]) is Shutdown),
    ensures
        meta_after_run(m, events).sequence.0 == events.len(),
        meta_after_run(m, events).events_processed == events.len(),
{
    lemma_counters_after_run_general(m, events);
}

/// The reference pipeline over a sequence of market events: for each
/// event, the default strategy's output and the verdicts of the default
/// risk gate on it, with risk state carried from event to event.
pub open spec fn default_pipeline_run(
    id: Seq<char>,
    gate: DefaultRiskManager,
    events: Seq<MarketEventV>,
    nows: Seq<u64>,
) -> Seq<(StrategyOutputV, Seq<RiskCheckResultV>)>
    decreases events.len(),
{
    if events.len() == 0 || nows.len() == 0 {
        Seq::empty()
    } else {
        let out = default_output_spec(id, events[0]);
        let checked = gate_run(gate, out.orders, nows[0]);
        seq![(out, checked.1)] + default_pipeline_run(
            id,
            checked.0,
            events.drop_first(),
            nows.drop_first(),
        )
    }
}

/// Replaying the same ordered market events, at the same clock readings,
/// into two identically configured fresh pipelines yields identical
/// sequences of strategy outputs and risk verdicts.
pub proof fn lemma_replay_deterministic(
    id1: Seq<char>,
    id2: Seq<char>,
    gate1: DefaultRiskManager,
    gate2: DefaultRiskManager,
    events: Seq<MarketEventV>,
    nows: Seq<u64>,
)
    requires
        id1 == id2,
        gate1 == gate2,
    ensures
        default_pipeline_run(id1, gate1, events, nows) == default_pipeline_run(
            id2,
            gate2,
            events,
            nows,
        ),
{
}

} // verus!
