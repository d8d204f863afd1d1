use vstd::prelude::*;

use crate::error::Error;
use crate::problem::Problem;
use crate::state::{IterState, Kv, TerminationReason};

verus! {

/// An optimisation algorithm that the executor drives one iteration at a time.
pub trait Solver<O, P, G>: Sized {
    /// The algorithm's name, for diagnostics.
    fn name(&self) -> &'static str;

    /// Prepares the state once before the first iteration.
    fn init(&mut self, problem: &mut Problem<O>, state: IterState<P, G>) -> Result<
        (IterState<P, G>, Option<Kv>),
        Error,
    >;

    /// Computes the next iterate from `state`.
    fn next_iter(&mut self, problem: &mut Problem<O>, state: IterState<P, G>) -> Result<
        (IterState<P, G>, Option<Kv>),
        Error,
    >;

    /// What the algorithm's own stopping rule decides on `state`; by default it declares
    /// nothing and leaves the decision to the engine.
    open spec fn spec_stop(&self, state: IterState<P, G>) -> TerminationReason {
        TerminationReason::NotTerminated
    }

    /// The algorithm's own stopping rule.
    fn terminate_internal(&self, state: &IterState<P, G>) -> (r: TerminationReason)
        ensures
            r == self.spec_stop(*state),
    ;
}

} // verus!
