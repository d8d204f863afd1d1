use vstd::prelude::*;

use crate::error::{Error, OpKind};
use crate::state::{EvalCounts, IterState, TerminationReason};

verus! {

/// Optional caps on how often each problem operation may be invoked.
#[derive(Clone, Copy, Debug, PartialEq, Eq, Structural)]
pub struct EvalCaps {
    pub cost: Option<u64>,
    pub gradient: Option<u64>,
    pub hessian: Option<u64>,
    pub jacobian: Option<u64>,
    pub apply: Option<u64>,
}

/// The options of a run.
#[derive(Clone, Copy, Debug, PartialEq, Eq, Structural)]
pub struct Config {
    pub max_iters: u64,
    pub target_cost: Option<i64>,
    pub max_time_ms: Option<u64>,
    pub max_evals: EvalCaps,
    /// Take a checkpoint whenever the iteration count is a multiple of this.
    pub checkpoint_every: Option<u64>,
}

impl Config {
    /// No cap but the largest iteration count, no target, no checkpoints.
    pub fn new() -> (r: Config)
        ensures
            r == (Config {
                max_iters: u64::MAX,
                target_cost: None,
                max_time_ms: None,
                max_evals: EvalCaps { cost: None, gradient: None, hessian: None, jacobian: None, apply: None },
                checkpoint_every: None,
            }),
    {
        Config {
            max_iters: u64::MAX,
            target_cost: None,
            max_time_ms: None,
            max_evals: EvalCaps { cost: None, gradient: None, hessian: None, jacobian: None, apply: None },
            checkpoint_every: None,
        }
    }

    pub fn max_iters(self, n: u64) -> (r: Config)
        ensures
            r == (Config { max_iters: n, ..self }),
    {
        Config { max_iters: n, ..self }
    }

    pub fn target_cost(self, c: i64) -> (r: Config)
        ensures
            r == (Config { target_cost: Some(c), ..self }),
    {
        Config { target_cost: Some(c), ..self }
    }

    pub fn max_time_ms(self, ms: u64) -> (r: Config)
        ensures
            r == (Config { max_time_ms: Some(ms), ..self }),
    {
        Config { max_time_ms: Some(ms), ..self }
    }

    pub fn max_evals(self, kind: OpKind, n: u64) -> (r: Config)
        ensures
            r.max_evals.cap(kind) == Some(n),
            forall|k: OpKind| k != kind ==> r.max_evals.cap(k) == self.max_evals.cap(k),
            r == (Config { max_evals: r.max_evals, ..self }),
    {
        let e = self.max_evals;
        let max_evals = match kind {
            OpKind::Cost => EvalCaps { cost: Some(n), ..e },
            OpKind::Gradient => EvalCaps { gradient: Some(n), ..e },
            OpKind::Hessian => EvalCaps { hessian: Some(n), ..e },
            OpKind::Jacobian => EvalCaps { jacobian: Some(n), ..e },
            OpKind::Apply => EvalCaps { apply: Some(n), ..e },
        };
        Config { max_evals, ..self }
    }

    pub fn checkpoint_every(self, n: u64) -> (r: Config)
        ensures
            r == (Config { checkpoint_every: Some(n), ..self }),
    {
        Config { checkpoint_every: Some(n), ..self }
    }

    /// A run can be observed unless it may do no iteration and has no other stopping rule.
    pub open spec fn spec_valid(self) -> bool {
        !(self.max_iters == 0 && self.target_cost is None && self.max_time_ms is None
            && self.max_evals.cost is None && self.max_evals.gradient is None
            && self.max_evals.hessian is None && self.max_evals.jacobian is None
            && self.max_evals.apply is None)
    }

    /// Rejects a configuration with zero iterations and no other stopping rule.
    pub fn validate(&self) -> (r: Result<(), Error>)
        ensures
            r is Ok <==> self.spec_valid(),
            r matches Err(e) ==> e is Configuration,
    {
        if self.max_iters == 0 && self.target_cost.is_none() && self.max_time_ms.is_none()
            && self.max_evals.cost.is_none() && self.max_evals.gradient.is_none()
            && self.max_evals.hessian.is_none() && self.max_evals.jacobian.is_none()
            && self.max_evals.apply.is_none() {
            Err(Error::Configuration("zero iterations and no other stopping rule".to_string()))
        } else {
            Ok(())
        }
    }
}

impl EvalCaps {
    pub open spec fn cap(self, kind: OpKind) -> Option<u64> {
        match kind {
            OpKind::Cost => self.cost,
            OpKind::Gradient => self.gradient,
            OpKind::Hessian => self.hessian,
            OpKind::Jacobian => self.jacobian,
            OpKind::Apply => self.apply,
        }
    }
}

/// Whether the budget of `kind` is used up.
pub open spec fn spec_exhausted(caps: EvalCaps, counts: EvalCounts, kind: OpKind) -> bool {
    caps.cap(kind) matches Some(c) && counts.get(kind) >= c
}

/// The reason a run stops after a pass, first match wins: the solver's own rule, the
/// target cost, the iteration cap, the evaluation caps (cost, gradient, Hessian, Jacobian, apply), the time cap.
pub open spec fn spec_decide(
    solver_reason: TerminationReason,
    iter: u64,
    cost: i64,
    counts: EvalCounts,
    config: Config,
    elapsed_ms: u64,
) -> TerminationReason {
    if solver_reason.spec_terminated() {
        solver_reason
    } else if config.target_cost matches Some(t) && cost <= t {
        TerminationReason::TargetCostReached
    } else if iter >= config.max_iters {
        TerminationReason::MaxItersReached
    } else if spec_exhausted(config.max_evals, counts, OpKind::Cost) {
        TerminationReason::MaxEvalsReached(OpKind::Cost)
    } else if spec_exhausted(config.max_evals, counts, OpKind::Gradient) {
        TerminationReason::MaxEvalsReached(OpKind::Gradient)
    } else if spec_exhausted(config.max_evals, counts, OpKind::Hessian) {
        TerminationReason::MaxEvalsReached(OpKind::Hessian)
    } else if spec_exhausted(config.max_evals, counts, OpKind::Jacobian) {
        TerminationReason::MaxEvalsReached(OpKind::Jacobian)
    } else if spec_exhausted(config.max_evals, counts, OpKind::Apply) {
        TerminationReason::MaxEvalsReached(OpKind::Apply)
    } else if config.max_time_ms matches Some(m) && elapsed_ms >= m {
        TerminationReason::TimedOut
    } else {
        TerminationReason::NotTerminated
    }
}

/// One of the engine's rules other than the time cap holds: the target cost is met, the
/// iteration cap is reached, or some evaluation budget is used up.
pub open spec fn spec_rule_holds(iter: u64, cost: i64, counts: EvalCounts, config: Config) -> bool {
    ||| (config.target_cost matches Some(t) && cost <= t)
    ||| iter >= config.max_iters
    ||| spec_exhausted(config.max_evals, counts, OpKind::Cost)
    ||| spec_exhausted(config.max_evals, counts, OpKind::Gradient)
    ||| spec_exhausted(config.max_evals, counts, OpKind::Hessian)
    ||| spec_exhausted(config.max_evals, counts, OpKind::Jacobian)
    ||| spec_exhausted(config.max_evals, counts, OpKind::Apply)
}

fn exhausted(cap: Option<u64>, count: u64) -> (r: bool)
    ensures
        r == (cap matches Some(c) && count >= c),
{
    match cap {
        Some(c) => count >= c,
        None => false,
    }
}

/// Evaluates the stopping rules in their order of precedence.
pub fn decide(
    solver_reason: TerminationReason,
    iter: u64,
    cost: i64,
    counts: EvalCounts,
    config: &Config,
    elapsed_ms: u64,
) -> (r: TerminationReason)
    ensures
        r == spec_decide(solver_reason, iter, cost, counts, *config, elapsed_ms),
{
    if solver_reason.terminated() {
        return solver_reason;
    }
    let target_hit = match config.target_cost {
        Some(t) => cost <= t,
        None => false,
    };
    if target_hit {
        TerminationReason::TargetCostReached
    } else if iter >= config.max_iters {
        TerminationReason::MaxItersReached
    } else if exhausted(config.max_evals.cost, counts.cost) {
        TerminationReason::MaxEvalsReached(OpKind::Cost)
    } else if exhausted(config.max_evals.gradient, counts.gradient) {
        TerminationReason::MaxEvalsReached(OpKind::Gradient)
    } else if exhausted(config.max_evals.hessian, counts.hessian) {
        TerminationReason::MaxEvalsReached(OpKind::Hessian)
    } else if exhausted(config.max_evals.jacobian, counts.jacobian) {
        TerminationReason::MaxEvalsReached(OpKind::Jacobian)
    } else if exhausted(config.max_evals.apply, counts.apply) {
        TerminationReason::MaxEvalsReached(OpKind::Apply)
    } else if exhausted(config.max_time_ms, elapsed_ms) {
        TerminationReason::TimedOut
    } else {
        TerminationReason::NotTerminated
    }
}

/// Once the iteration cap is reached a run stops, and when nothing of higher precedence
/// holds it stops for that reason.
pub proof fn lemma_max_iters_reason(
    solver_reason: TerminationReason,
    iter: u64,
    cost: i64,
    counts: EvalCounts,
    config: Config,
    elapsed_ms: u64,
)
    requires
        iter >= config.max_iters,
    ensures
        spec_decide(solver_reason, iter, cost, counts, config, elapsed_ms).spec_terminated(),
        !solver_reason.spec_terminated() && !(config.target_cost matches Some(t) && cost <= t)
            ==> spec_decide(solver_reason, iter, cost, counts, config, elapsed_ms)
            == TerminationReason::MaxItersReached,
{
}

/// The decision names exactly one reason, and each reason is backed by the condition that
/// it names.
pub proof fn lemma_reason_consistent(
    solver_reason: TerminationReason,
    iter: u64,
    cost: i64,
    counts: EvalCounts,
    config: Config,
    elapsed_ms: u64,
)
    ensures
        solver_reason.spec_terminated() ==> spec_decide(
            solver_reason,
            iter,
            cost,
            counts,
            config,
            elapsed_ms,
        ) == solver_reason,
        !solver_reason.spec_terminated() ==> ({
            let r = spec_decide(solver_reason, iter, cost, counts, config, elapsed_ms);
            &&& r == TerminationReason::TargetCostReached ==> (config.target_cost matches Some(
                t,
            ) && cost <= t)
            &&& r == TerminationReason::MaxItersReached ==> iter >= config.max_iters
            &&& (forall|k: OpKind|
                r == TerminationReason::MaxEvalsReached(k) ==> #[trigger] spec_exhausted(
                    config.max_evals,
                    counts,
                    k,
                ))
            &&& r == TerminationReason::TimedOut ==> (config.max_time_ms matches Some(m)
                && elapsed_ms >= m)
            &&& r != TerminationReason::SolverConverged
            &&& r != TerminationReason::SolverError
            &&& r == TerminationReason::NotTerminated ==> {
                &&& iter < config.max_iters
                &&& !spec_exhausted(config.max_evals, counts, OpKind::Cost)
                &&& !spec_exhausted(config.max_evals, counts, OpKind::Gradient)
                &&& !spec_exhausted(config.max_evals, counts, OpKind::Hessian)
                &&& !spec_exhausted(config.max_evals, counts, OpKind::Jacobian)
                &&& !spec_exhausted(config.max_evals, counts, OpKind::Apply)
            }
        }),
{
}

/// The state after best-so-far tracking: a strictly lower cost replaces the best one.
pub open spec fn spec_improves<P, G>(s: IterState<P, G>) -> bool {
    s.cost < s.best_cost
}

/// Records the current parameter as the best one when its cost is strictly lower.
pub fn update_best<P: Clone, G>(state: IterState<P, G>) -> (r: IterState<P, G>)
    ensures
        spec_improves(state) ==> {
            &&& r.best_cost == state.cost
            &&& r.last_best_iter == state.iter
            &&& r.best_param is Some <==> state.param is Some
            &&& r == (IterState {
                best_param: r.best_param,
                best_cost: r.best_cost,
                last_best_iter: r.last_best_iter,
                ..state
            })
        },
        !spec_improves(state) ==> r == state,
        r.best_cost <= state.best_cost,
{
    if state.cost < state.best_cost {
        let best_param = match &state.param {
            Some(p) => Some(p.clone()),
            None => None,
        };
        let iter = state.iter;
        let cost = state.cost;
        IterState { best_param, best_cost: cost, last_best_iter: iter, ..state }
    } else {
        state
    }
}

/// Best-so-far tracking never raises the best cost, and changes it only to a strictly lower
/// current cost.
pub proof fn lemma_best_cost_non_increasing<P, G>(before: IterState<P, G>, after: IterState<P, G>)
    requires
        spec_improves(before) ==> after.best_cost == before.cost,
        !spec_improves(before) ==> after == before,
    ensures
        after.best_cost <= before.best_cost,
        after.best_cost != before.best_cost ==> after.best_cost < before.best_cost
            && after.best_cost == before.cost,
{
}

} // verus!
