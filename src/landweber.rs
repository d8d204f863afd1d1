use vstd::prelude::*;

use crate::error::{Error, OpKind};
use crate::math::ScaledSub;
use crate::problem::{Gradient, Problem};
use crate::solver::Solver;
use crate::state::{IterState, Kv, TerminationReason};

verus! {

/// The Landweber iteration, a solver for ill-posed linear inverse problems:
/// `x_{k+1} = x_k - omega * grad f(x_k)`.
#[derive(Clone)]
pub struct Landweber<F> {
    omega: F,
}

impl<F> Landweber<F> {
    pub closed spec fn spec_omega(&self) -> F {
        self.omega
    }

    /// Builds the solver with step size `omega`.
    pub fn new(omega: F) -> (r: Self)
        ensures
            r.spec_omega() == omega,
    {
        Landweber { omega }
    }

    /// The step size.
    pub fn omega(&self) -> (r: &F)
        ensures
            *r == self.spec_omega(),
    {
        &self.omega
    }

    /// One Landweber update: evaluates the gradient at the current parameter and moves
    /// against it by `omega`. The gradient is kept in the state.
    pub fn step<O, P, G>(&self, problem: &mut Problem<O>, state: IterState<P, G>) -> (r: Result<
        IterState<P, G>,
        Error,
    >)
        where
            O: Gradient<P, G>,
            P: ScaledSub<G, F>,
        ensures
            final(problem).spec_problem() == old(problem).spec_problem(),
            state.param is None ==> {
                &&& r matches Err(Error::SolverLogic(_))
                &&& final(problem).spec_counts() == old(problem).spec_counts()
            },
            state.param is Some ==> final(problem).spec_counts() == old(
                problem,
            ).spec_counts().bumped(OpKind::Gradient),
            state.param matches Some(p) ==> {
                &&& (r is Err <==> old(problem).spec_problem().spec_gradient(p) is Err)
                &&& (r matches Err(e) ==> old(problem).spec_problem().spec_gradient(p) == Err::<
                    G,
                    Error,
                >(e))
                &&& (r matches Ok(s) ==> s.gradient == Some(
                    old(problem).spec_problem().spec_gradient(p)->Ok_0,
                ))
            },
            r matches Ok(s) ==> {
                &&& state.param is Some
                &&& s.param is Some
                &&& s.gradient is Some
                &&& state.param.unwrap().is_scaled_sub(
                    self.spec_omega(),
                    s.gradient.unwrap(),
                    s.param.unwrap(),
                )
                &&& s == (IterState { param: s.param, gradient: s.gradient, ..state })
            },
    {
        let mut state = state;
        let param = match state.take_param() {
            Some(p) => p,
            None => {
                return Err(Error::SolverLogic("no parameter to update".to_string()));
            },
        };
        let grad = match problem.gradient(&param) {
            Ok(g) => g,
            Err(e) => {
                return Err(e);
            },
        };
        let new_param = param.scaled_sub(&self.omega, &grad);
        Ok(state.with_param(new_param).with_gradient(grad))
    }
}

impl<O, P, G, F> Solver<O, P, G> for Landweber<F> where O: Gradient<P, G>, P: ScaledSub<G, F> {
    fn name(&self) -> &'static str {
        "Landweber"
    }

    /// Landweber needs no preparation: the state passes through.
    fn init(&mut self, problem: &mut Problem<O>, state: IterState<P, G>) -> (r: Result<
        (IterState<P, G>, Option<Kv>),
        Error,
    >)
        ensures
            *final(self) == *old(self),
            *final(problem) == *old(problem),
            r == Ok::<(IterState<P, G>, Option<Kv>), Error>((state, None)),
    {
        Ok((state, None))
    }

    /// One Landweber update, as `step`, with no diagnostics.
    fn next_iter(&mut self, problem: &mut Problem<O>, state: IterState<P, G>) -> (r: Result<
        (IterState<P, G>, Option<Kv>),
        Error,
    >)
        ensures
            *final(self) == *old(self),
            final(problem).spec_problem() == old(problem).spec_problem(),
            state.param is None ==> {
                &&& r matches Err(Error::SolverLogic(_))
                &&& final(problem).spec_counts() == old(problem).spec_counts()
            },
            state.param is Some ==> final(problem).spec_counts() == old(
                problem,
            ).spec_counts().bumped(OpKind::Gradient),
            state.param matches Some(p) ==> {
                &&& (r is Err <==> old(problem).spec_problem().spec_gradient(p) is Err)
                &&& (r matches Err(e) ==> old(problem).spec_problem().spec_gradient(p) == Err::<
                    G,
                    Error,
                >(e))
                &&& (r matches Ok((s, _)) ==> s.gradient == Some(
                    old(problem).spec_problem().spec_gradient(p)->Ok_0,
                ))
            },
            r matches Ok((s, kv)) ==> {
                &&& kv is None
                &&& state.param is Some
                &&& s.param is Some
                &&& s.gradient is Some
                &&& state.param.unwrap().is_scaled_sub(
                    old(self).spec_omega(),
                    s.gradient.unwrap(),
                    s.param.unwrap(),
                )
                &&& s == (IterState { param: s.param, gradient: s.gradient, ..state })
            },
    {
        match self.step(problem, state) {
            Ok(s) => Ok((s, None)),
            Err(e) => Err(e),
        }
    }

    open spec fn spec_stop(&self, state: IterState<P, G>) -> TerminationReason {
        TerminationReason::NotTerminated
    }

    /// Landweber has no stopping rule of its own.
    fn terminate_internal(&self, state: &IterState<P, G>) -> (r: TerminationReason) {
        TerminationReason::NotTerminated
    }
}

} // verus!
