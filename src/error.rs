use vstd::prelude::*;

verus! {

/// The kinds of problem operation that the engine forwards and counts.
#[derive(Clone, Copy, Debug, PartialEq, Eq, Structural)]
pub enum OpKind {
    Cost,
    Gradient,
    Hessian,
    Jacobian,
    Apply,
}

/// Why a run, or one of its steps, failed.
#[derive(Clone, Debug)]
pub enum Error {
    /// A problem operation reported a failure.
    ProblemEvaluation(String),
    /// A solver broke one of the engine's invariants.
    SolverLogic(String),
    /// The run configuration cannot lead to an observable run.
    Configuration(String),
}

} // verus!
