use vstd::prelude::*;

use crate::error::{Error, OpKind};
use crate::state::EvalCounts;

verus! {

/// A problem that can evaluate its objective at a parameter. The evaluation is a function
/// of the parameter alone.
pub trait CostFunction<P> {
    /// The outcome of evaluating the cost at `param`.
    open spec fn spec_cost(&self, param: P) -> Result<i64, Error> {
        arbitrary()
    }

    fn cost(&self, param: &P) -> (r: Result<i64, Error>)
        ensures
            r == self.spec_cost(*param),
    ;
}

/// A problem that can evaluate the gradient of its objective at a parameter. The
/// evaluation is a function of the parameter alone.
pub trait Gradient<P, G> {
    /// The outcome of evaluating the gradient at `param`.
    open spec fn spec_gradient(&self, param: P) -> Result<G, Error> {
        arbitrary()
    }

    fn gradient(&self, param: &P) -> (r: Result<G, Error>)
        ensures
            r == self.spec_gradient(*param),
    ;
}

/// A problem that can evaluate the Hessian of its objective at a parameter. The
/// evaluation is a function of the parameter alone.
pub trait Hessian<P, H> {
    /// The outcome of evaluating the Hessian at `param`.
    open spec fn spec_hessian(&self, param: P) -> Result<H, Error> {
        arbitrary()
    }

    fn hessian(&self, param: &P) -> (r: Result<H, Error>)
        ensures
            r == self.spec_hessian(*param),
    ;
}

/// A problem that can evaluate the Jacobian of its residuals at a parameter. The
/// evaluation is a function of the parameter alone.
pub trait Jacobian<P, J> {
    /// The outcome of evaluating the Jacobian at `param`.
    open spec fn spec_jacobian(&self, param: P) -> Result<J, Error> {
        arbitrary()
    }

    fn jacobian(&self, param: &P) -> (r: Result<J, Error>)
        ensures
            r == self.spec_jacobian(*param),
    ;
}

/// A problem given as an operator that can be applied to a parameter. The application is
/// a function of the parameter alone.
pub trait Operator<P, Q> {
    /// The outcome of applying the operator to `param`.
    open spec fn spec_apply(&self, param: P) -> Result<Q, Error> {
        arbitrary()
    }

    fn apply(&self, param: &P) -> (r: Result<Q, Error>)
        ensures
            r == self.spec_apply(*param),
    ;
}

/// The counts after `n` invocations of `kind`.
pub open spec fn bumped_n(c: EvalCounts, kind: OpKind, n: nat) -> EvalCounts
    decreases n,
{
    if n == 0 {
        c
    } else {
        bumped_n(c, kind, (n - 1) as nat).bumped(kind)
    }
}

/// `n` invocations of one operation, each successful or not, raise its count by exactly
/// `n` and leave the other counts alone, as long as the count stays within `u64`.
pub proof fn lemma_counts_add_up(c: EvalCounts, kind: OpKind, n: nat)
    requires
        c.get(kind) + n <= u64::MAX,
    ensures
        bumped_n(c, kind, n).get(kind) == c.get(kind) + n,
        forall|k: OpKind| k != kind ==> #[trigger] bumped_n(c, kind, n).get(k) == c.get(k),
    decreases n,
{
    if n > 0 {
        lemma_counts_add_up(c, kind, (n - 1) as nat);
        let prev = bumped_n(c, kind, (n - 1) as nat);
        assert forall|k: OpKind| k != kind implies #[trigger] bumped_n(c, kind, n).get(k) == c.get(
            k,
        ) by {
            assert(prev.get(k) == c.get(k));
        }
    }
}

/// Owns a problem for a run and counts every operation invoked on it, failed ones included.
pub struct Problem<O> {
    problem: O,
    counts: EvalCounts,
}

impl<O> Problem<O> {
    pub closed spec fn spec_problem(&self) -> O {
        self.problem
    }

    pub closed spec fn spec_counts(&self) -> EvalCounts {
        self.counts
    }

    /// Wraps `problem` with all counts at zero.
    pub fn new(problem: O) -> (r: Self)
        ensures
            r.spec_problem() == problem,
            r.spec_counts() == (EvalCounts { cost: 0, gradient: 0, hessian: 0, jacobian: 0, apply: 0 }),
    {
        Problem { problem, counts: EvalCounts::zero() }
    }

    /// Wraps `problem`, carrying on from earlier counts.
    pub fn with_counts(problem: O, counts: EvalCounts) -> (r: Self)
        ensures
            r.spec_problem() == problem,
            r.spec_counts() == counts,
    {
        Problem { problem, counts }
    }

    /// The counts so far.
    pub fn counts(&self) -> (r: EvalCounts)
        ensures
            r == self.spec_counts(),
    {
        self.counts
    }

    /// The wrapped problem.
    pub fn problem(&self) -> (r: &O)
        ensures
            *r == self.spec_problem(),
    {
        &self.problem
    }

    /// Hands the wrapped problem back.
    pub fn into_inner(self) -> (r: O)
        ensures
            r == self.spec_problem(),
    {
        self.problem
    }

    /// Evaluates the cost at `param`, counting the call.
    pub fn cost<P>(&mut self, param: &P) -> (r: Result<i64, Error>)
        where
            O: CostFunction<P>,
        ensures
            final(self).spec_problem() == old(self).spec_problem(),
            final(self).spec_counts() == old(self).spec_counts().bumped(OpKind::Cost),
            r == old(self).spec_problem().spec_cost(*param),
    {
        self.counts.record(OpKind::Cost);
        self.problem.cost(param)
    }

    /// Evaluates the gradient at `param`, counting the call.
    pub fn gradient<P, G>(&mut self, param: &P) -> (r: Result<G, Error>)
        where
            O: Gradient<P, G>,
        ensures
            final(self).spec_problem() == old(self).spec_problem(),
            final(self).spec_counts() == old(self).spec_counts().bumped(OpKind::Gradient),
            r == old(self).spec_problem().spec_gradient(*param),
    {
        self.counts.record(OpKind::Gradient);
        self.problem.gradient(param)
    }

    /// Evaluates the Hessian at `param`, counting the call.
    pub fn hessian<P, H>(&mut self, param: &P) -> (r: Result<H, Error>)
        where
            O: Hessian<P, H>,
        ensures
            final(self).spec_problem() == old(self).spec_problem(),
            final(self).spec_counts() == old(self).spec_counts().bumped(OpKind::Hessian),
            r == old(self).spec_problem().spec_hessian(*param),
    {
        self.counts.record(OpKind::Hessian);
        self.problem.hessian(param)
    }

    /// Evaluates the Jacobian at `param`, counting the call.
    pub fn jacobian<P, J>(&mut self, param: &P) -> (r: Result<J, Error>)
        where
            O: Jacobian<P, J>,
        ensures
            final(self).spec_problem() == old(self).spec_problem(),
            final(self).spec_counts() == old(self).spec_counts().bumped(OpKind::Jacobian),
            r == old(self).spec_problem().spec_jacobian(*param),
    {
        self.counts.record(OpKind::Jacobian);
        self.problem.jacobian(param)
    }

    /// Applies the operator to `param`, counting the call.
    pub fn apply<P, Q>(&mut self, param: &P) -> (r: Result<Q, Error>)
        where
            O: Operator<P, Q>,
        ensures
            final(self).spec_problem() == old(self).spec_problem(),
            final(self).spec_counts() == old(self).spec_counts().bumped(OpKind::Apply),
            r == old(self).spec_problem().spec_apply(*param),
    {
        self.counts.record(OpKind::Apply);
        self.problem.apply(param)
    }
}

} // verus!
