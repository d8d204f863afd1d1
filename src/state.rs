use vstd::prelude::*;

use crate::error::OpKind;

verus! {

/// Why a run stopped, or `NotTerminated` while it goes on.
#[derive(Clone, Copy, Debug, PartialEq, Eq, Structural)]
pub enum TerminationReason {
    NotTerminated,
    SolverConverged,
    TargetCostReached,
    MaxItersReached,
    MaxEvalsReached(OpKind),
    TimedOut,
    SolverError,
}

impl TerminationReason {
    pub open spec fn spec_terminated(self) -> bool {
        !(self is NotTerminated)
    }

    /// Whether this reason ends the run.
    pub fn terminated(&self) -> (r: bool)
        ensures
            r == self.spec_terminated(),
    {
        !matches!(self, TerminationReason::NotTerminated)
    }
}

/// How many times each problem operation has been invoked.
#[derive(Clone, Copy, Debug, PartialEq, Eq, Structural)]
pub struct EvalCounts {
    pub cost: u64,
    pub gradient: u64,
    pub hessian: u64,
    pub jacobian: u64,
    pub apply: u64,
}

/// One more, held at the largest `u64`.
pub open spec fn bump(c: u64) -> u64 {
    if c == u64::MAX {
        c
    } else {
        (c + 1) as u64
    }
}

impl EvalCounts {
    pub open spec fn get(self, kind: OpKind) -> u64 {
        match kind {
            OpKind::Cost => self.cost,
            OpKind::Gradient => self.gradient,
            OpKind::Hessian => self.hessian,
            OpKind::Jacobian => self.jacobian,
            OpKind::Apply => self.apply,
        }
    }

    /// The counts after one more invocation of `kind`.
    pub open spec fn bumped(self, kind: OpKind) -> EvalCounts {
        match kind {
            OpKind::Cost => EvalCounts { cost: bump(self.cost), ..self },
            OpKind::Gradient => EvalCounts { gradient: bump(self.gradient), ..self },
            OpKind::Hessian => EvalCounts { hessian: bump(self.hessian), ..self },
            OpKind::Jacobian => EvalCounts { jacobian: bump(self.jacobian), ..self },
            OpKind::Apply => EvalCounts { apply: bump(self.apply), ..self },
        }
    }

    /// No count of `self` is above the matching count of `later`.
    pub open spec fn le(self, later: EvalCounts) -> bool {
        &&& self.cost <= later.cost
        &&& self.gradient <= later.gradient
        &&& self.hessian <= later.hessian
        &&& self.jacobian <= later.jacobian
        &&& self.apply <= later.apply
    }

    /// All counts at zero.
    pub fn zero() -> (r: EvalCounts)
        ensures
            r == (EvalCounts { cost: 0, gradient: 0, hessian: 0, jacobian: 0, apply: 0 }),
    {
        EvalCounts { cost: 0, gradient: 0, hessian: 0, jacobian: 0, apply: 0 }
    }

    /// The count for `kind`.
    pub fn count(&self, kind: OpKind) -> (r: u64)
        ensures
            r == self.get(kind),
    {
        match kind {
            OpKind::Cost => self.cost,
            OpKind::Gradient => self.gradient,
            OpKind::Hessian => self.hessian,
            OpKind::Jacobian => self.jacobian,
            OpKind::Apply => self.apply,
        }
    }

    /// Records one more invocation of `kind`.
    pub fn record(&mut self, kind: OpKind)
        ensures
            *final(self) == old(self).bumped(kind),
    {
        match kind {
            OpKind::Cost => self.cost = self.cost.saturating_add(1),
            OpKind::Gradient => self.gradient = self.gradient.saturating_add(1),
            OpKind::Hessian => self.hessian = self.hessian.saturating_add(1),
            OpKind::Jacobian => self.jacobian = self.jacobian.saturating_add(1),
            OpKind::Apply => self.apply = self.apply.saturating_add(1),
        }
    }
}

/// Diagnostic key/value pairs attached to one step, in order.
#[derive(Clone, Debug)]
pub struct Kv {
    pub entries: Vec<(String, String)>,
}

impl Kv {
    /// An empty list of diagnostics.
    pub fn new() -> (r: Kv)
        ensures
            r.entries@.len() == 0,
    {
        Kv { entries: Vec::new() }
    }

    /// Appends one pair at the end.
    pub fn push(&mut self, key: String, value: String)
        ensures
            final(self).entries@ == old(self).entries@.push((key, value)),
    {
        self.entries.push((key, value));
    }
}

/// The cost that stands for "no cost seen yet": every other cost is better.
pub const WORST_COST: i64 = 9223372036854775807;

/// The progress of one run. Costs are minimised: lower is better.
#[derive(Clone, Debug)]
pub struct IterState<P, G> {
    /// The parameter under evaluation; a solver step takes it and puts one back.
    pub param: Option<P>,
    /// The parameter with the lowest cost seen so far.
    pub best_param: Option<P>,
    pub cost: i64,
    pub best_cost: i64,
    pub gradient: Option<G>,
    /// Completed iterations.
    pub iter: u64,
    /// The iteration at which `best_cost` last improved.
    pub last_best_iter: u64,
    /// Mirror of the problem wrapper's counters.
    pub counts: EvalCounts,
    pub termination: TerminationReason,
    /// Milliseconds since the run started, once measured.
    pub time_ms: Option<u64>,
}

impl<P, G> IterState<P, G> {
    /// A fresh state around the initial parameter, if any.
    pub fn new(param: Option<P>) -> (r: Self)
        ensures
            r.param == param,
            r.best_param.is_none(),
            r.cost == WORST_COST,
            r.best_cost == WORST_COST,
            r.gradient.is_none(),
            r.iter == 0,
            r.last_best_iter == 0,
            r.counts == (EvalCounts { cost: 0, gradient: 0, hessian: 0, jacobian: 0, apply: 0 }),
            r.termination == TerminationReason::NotTerminated,
            r.time_ms.is_none(),
    {
        IterState {
            param,
            best_param: None,
            cost: WORST_COST,
            best_cost: WORST_COST,
            gradient: None,
            iter: 0,
            last_best_iter: 0,
            counts: EvalCounts::zero(),
            termination: TerminationReason::NotTerminated,
            time_ms: None,
        }
    }

    /// Whether `other` holds the same progress: the same counters, costs, iteration
    /// numbers, elapsed time and termination reason, and the same optional fields present.
    pub open spec fn same_progress(self, other: Self) -> bool {
        &&& self.cost == other.cost
        &&& self.best_cost == other.best_cost
        &&& self.iter == other.iter
        &&& self.last_best_iter == other.last_best_iter
        &&& self.counts == other.counts
        &&& self.termination == other.termination
        &&& self.time_ms == other.time_ms
        &&& (self.param is Some <==> other.param is Some)
        &&& (self.best_param is Some <==> other.best_param is Some)
        &&& (self.gradient is Some <==> other.gradient is Some)
    }

    /// A copy of the state, cloning the parameters and the gradient.
    pub fn snapshot(&self) -> (r: Self)
        where
            P: Clone,
            G: Clone,
        ensures
            r.same_progress(*self),
    {
        let param = match &self.param {
            Some(p) => Some(p.clone()),
            None => None,
        };
        let best_param = match &self.best_param {
            Some(p) => Some(p.clone()),
            None => None,
        };
        let gradient = match &self.gradient {
            Some(g) => Some(g.clone()),
            None => None,
        };
        IterState {
            param,
            best_param,
            cost: self.cost,
            best_cost: self.best_cost,
            gradient,
            iter: self.iter,
            last_best_iter: self.last_best_iter,
            counts: self.counts,
            termination: self.termination,
            time_ms: self.time_ms,
        }
    }

    /// Takes the parameter out, leaving none behind.
    pub fn take_param(&mut self) -> (r: Option<P>)
        ensures
            r == old(self).param,
            *final(self) == (IterState { param: None, ..*old(self) }),
    {
        self.param.take()
    }

    /// The state with `param` as its parameter.
    pub fn with_param(self, param: P) -> (r: Self)
        ensures
            r == (IterState { param: Some(param), ..self }),
    {
        IterState { param: Some(param), ..self }
    }

    /// The state with `cost` as its current cost.
    pub fn with_cost(self, cost: i64) -> (r: Self)
        ensures
            r == (IterState { cost, ..self }),
    {
        IterState { cost, ..self }
    }

    /// The state with `gradient` as its current gradient.
    pub fn with_gradient(self, gradient: G) -> (r: Self)
        ensures
            r == (IterState { gradient: Some(gradient), ..self }),
    {
        IterState { gradient: Some(gradient), ..self }
    }
}

} // verus!
