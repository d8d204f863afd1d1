use vstd::prelude::*;

use crate::error::Error;
use crate::observer::{notify, spec_error_of, spec_silent, NoObserver, Observer, ObserverMode};
use crate::problem::Problem;
use crate::solver::Solver;
use crate::state::{EvalCounts, IterState, Kv, TerminationReason};
use crate::error::OpKind;
use crate::termination::{decide, spec_decide, spec_exhausted, spec_rule_holds, update_best, Config};

verus! {

#[verifier::external_type_specification]
#[verifier::external_body]
pub struct ExInstant(std::time::Instant);

/// Relies on std::time::Instant::now: an instant of the monotonic clock, to measure the
/// run's time from.
#[verifier::external_body]
fn clock_start() -> (r: std::time::Instant) {
    std::time::Instant::now()
}

/// Relies on std::time::Instant::elapsed: the time since `start`. Nothing is promised of
/// the value: it depends on the clock.
#[verifier::external_body]
fn elapsed(start: &std::time::Instant) -> (r: core::time::Duration) {
    start.elapsed()
}

/// Relies on std::time::Duration::as_millis: the whole milliseconds of `d`.
#[verifier::external_body]
fn whole_millis(d: &core::time::Duration) -> (r: u128) {
    d.as_millis()
}

/// The whole milliseconds since `start`, held at the largest `u64`.
fn elapsed_ms(start: &std::time::Instant) -> (r: u64) {
    let ms = whole_millis(&elapsed(start));
    if ms > u64::MAX as u128 {
        u64::MAX
    } else {
        ms as u64
    }
}

/// The termination reason of `s` is what the stopping rules decide on its progress, with
/// the reason that `solver`'s own rule gives on it, for some elapsed time.
pub open spec fn spec_decided<O, S: Solver<O, P, G>, P, G>(
    solver: S,
    s: IterState<P, G>,
    config: Config,
) -> bool {
    exists|ms: u64|
        s.termination == #[trigger] spec_decide(
            solver.spec_stop(IterState { termination: TerminationReason::NotTerminated, ..s }),
            s.iter,
            s.cost,
            s.counts,
            config,
            ms,
        )
}

/// The engine's check of a step that succeeded: it must leave a parameter behind, and no
/// counter may have gone back from `before` to `after`.
pub fn check_step<P, G>(next: &IterState<P, G>, before: &EvalCounts, after: &EvalCounts) -> (r:
    Option<Error>)
    ensures
        r is None <==> (next.param is Some && before.le(*after)),
        r matches Some(e) ==> e is SolverLogic,
{
    if next.param.is_none() {
        Some(Error::SolverLogic("the step left no parameter".to_string()))
    } else if !counts_le(before, after) {
        Some(Error::SolverLogic("counters went back".to_string()))
    } else {
        None
    }
}

/// A checkpoint, if taken, is of an iteration that is a multiple of the cadence and not
/// after `iter`.
pub open spec fn spec_checkpoint_ok<S, P, G>(
    checkpoint: Option<Checkpoint<S, P, G>>,
    config: Config,
    iter: u64,
) -> bool {
    checkpoint matches Some(c) ==> {
        &&& config.checkpoint_every matches Some(k) && k > 0 && c.state.iter % k == 0
        &&& c.state.iter <= iter
    }
}

/// The largest multiple of `k` that is at most `to`.
pub open spec fn spec_last_multiple(to: u64, k: u64) -> int {
    to - to % k
}

/// When checkpoints are taken every `k > 0` iterations and the iterations after `from` up to
/// `to` reach a multiple of `k`, the checkpoint is of the last such multiple.
pub open spec fn spec_checkpoint_last<S, P, G>(
    checkpoint: Option<Checkpoint<S, P, G>>,
    config: Config,
    from: u64,
    to: u64,
) -> bool {
    match config.checkpoint_every {
        Some(k) => k > 0 && from < spec_last_multiple(to, k) ==> (checkpoint matches Some(c)
            && c.state.iter == spec_last_multiple(to, k)),
        None => true,
    }
}

proof fn lemma_last_multiple_step(i: u64, k: u64)
    requires
        k > 0,
        i < u64::MAX,
        (i + 1) as u64 % k != 0,
    ensures
        spec_last_multiple((i + 1) as u64, k) == spec_last_multiple(i, k),
{
    vstd::arithmetic::div_mod::lemma_add_mod_noop(i as int, 1, k as int);
    vstd::arithmetic::div_mod::lemma_mod_pos_bound(i as int, k as int);
    if k > 1 {
        vstd::arithmetic::div_mod::lemma_small_mod(1, k as nat);
        if i % k + 1 < k {
            vstd::arithmetic::div_mod::lemma_small_mod((i % k + 1) as nat, k as nat);
        } else {
            vstd::arithmetic::div_mod::lemma_mod_self_0(k as int);
        }
    }
}

/// A snapshot of a solver and its state, from which a run can be resumed.
pub struct Checkpoint<S, P, G> {
    pub solver: S,
    pub state: IterState<P, G>,
}

/// Where checkpoints are written as they are taken.
pub trait CheckpointSink<S, P, G>: Sized {
    /// Whether one call on `self` with `checkpoint` may leave the sink as `after` and return
    /// `r`. By default a sink may do anything with what it is given.
    open spec fn spec_saved(
        &self,
        checkpoint: Checkpoint<S, P, G>,
        after: Self,
        r: Result<(), Error>,
    ) -> bool {
        true
    }

    fn save(&mut self, checkpoint: &Checkpoint<S, P, G>) -> (r: Result<(), Error>)
        ensures
            old(self).spec_saved(*checkpoint, *final(self), r),
    ;
}

/// A sink that keeps no checkpoint.
pub struct NoCheckpointSink;

impl<S, P, G> CheckpointSink<S, P, G> for NoCheckpointSink {
    open spec fn spec_saved(
        &self,
        checkpoint: Checkpoint<S, P, G>,
        after: Self,
        r: Result<(), Error>,
    ) -> bool {
        r is Ok
    }

    fn save(&mut self, checkpoint: &Checkpoint<S, P, G>) -> (r: Result<(), Error>) {
        Ok(())
    }
}

/// What a run hands back.
pub struct Outcome<S, P, G> {
    pub state: IterState<P, G>,
    pub solver: S,
    /// The error that ended the run, if one did.
    pub error: Option<Error>,
    /// The number of solver steps that succeeded in this run: one less than the length of
    /// the trace.
    pub iterations: u64,
    /// Whether a stopping rule already held when the loop was to begin.
    pub init_terminated: bool,
    /// What sinks reported, in order; none of it ends the run.
    pub observer_errors: Vec<Error>,
    /// The latest checkpoint taken, if any.
    pub checkpoint: Option<Checkpoint<S, P, G>>,
    /// What the checkpoint sink reported, in order; none of it ends the run.
    pub checkpoint_errors: Vec<Error>,
    /// The state the loop began from, then the state after each successful step.
    pub trace: Ghost<Seq<IterState<P, G>>>,
}

/// The run's trace: it starts at `first_iter`, has one state more than there were successful
/// steps, each step adds one to the iteration number and never raises the best cost, and
/// the run went on from every state but the last; a state where one of the engine's rules
/// holds is terminated, so the run stops at the first such state.
pub open spec fn spec_trace<P, G>(
    trace: Seq<IterState<P, G>>,
    first_iter: u64,
    iterations: u64,
    config: Config,
) -> bool {
    &&& trace.len() == iterations + 1
    &&& forall|i: int|
        0 <= i < trace.len() && spec_rule_holds(
            (#[trigger] trace[i]).iter,
            trace[i].cost,
            trace[i].counts,
            config,
        ) ==> trace[i].termination.spec_terminated()
    &&& trace[0].iter == first_iter
    &&& forall|i: int|
        1 <= i < trace.len() ==> {
            &&& (#[trigger] trace[i]).iter == trace[i - 1].iter + 1
            &&& trace[i].best_cost <= trace[i - 1].best_cost
            &&& trace[i - 1].termination == TerminationReason::NotTerminated
        }
}

/// Drives a solver on a problem from a state until a stopping rule holds.
pub struct Executor<O, S, P, G> {
    problem: Problem<O>,
    solver: S,
    state: IterState<P, G>,
    config: Config,
    resumed: bool,
}

/// Each count of `a` is at most the matching count of `b`.
fn counts_le(a: &EvalCounts, b: &EvalCounts) -> (r: bool)
    ensures
        r == a.le(*b),
{
    a.cost <= b.cost && a.gradient <= b.gradient && a.hessian <= b.hessian && a.jacobian
        <= b.jacobian && a.apply <= b.apply
}

/// Whether a checkpoint is due after iteration `iter`.
pub fn checkpoint_due(every: Option<u64>, iter: u64) -> (r: bool)
    ensures
        r == (every matches Some(k) && k > 0 && iter % k == 0),
{
    match every {
        Some(k) => k > 0 && iter % k == 0,
        None => false,
    }
}

/// The state of a failed step: the progress of `saved`, with the problem's counts where
/// they did not go back, ended by a solver error.
fn failed<P, G>(saved: IterState<P, G>, counts: EvalCounts) -> (r: IterState<P, G>)
    ensures
        r.iter == saved.iter,
        r.best_cost == saved.best_cost,
        r.termination == TerminationReason::SolverError,
        saved.counts.le(r.counts),
        saved.counts.le(counts) ==> r.counts == counts,
{
    let c = if counts_le(&saved.counts, &counts) {
        counts
    } else {
        saved.counts
    };
    IterState { counts: c, termination: TerminationReason::SolverError, ..saved }
}

/// Takes the solver's state after a step and puts back what the engine owns: the
/// iteration number, counts, best-so-far tracking and elapsed time.
fn merge<P: Clone, G>(
    next: IterState<P, G>,
    saved: IterState<P, G>,
    iter: u64,
    counts: EvalCounts,
    elapsed: u64,
) -> (r: IterState<P, G>)
    ensures
        r.iter == iter,
        r.counts == counts,
        r.best_cost <= saved.best_cost,
        r.time_ms == Some(elapsed),
        r.param == next.param,
        r.cost == next.cost,
        r.termination == TerminationReason::NotTerminated,
{
    let merged = IterState {
        best_param: saved.best_param,
        best_cost: saved.best_cost,
        last_best_iter: saved.last_best_iter,
        iter,
        counts,
        time_ms: Some(elapsed),
        termination: TerminationReason::NotTerminated,
        ..next
    };
    update_best(merged)
}

impl<O, S, P, G> Executor<O, S, P, G> {
    pub closed spec fn spec_state(&self) -> IterState<P, G> {
        self.state
    }

    pub closed spec fn spec_solver(&self) -> S {
        self.solver
    }

    pub closed spec fn spec_config(&self) -> Config {
        self.config
    }

    pub closed spec fn spec_counts(&self) -> EvalCounts {
        self.problem.spec_counts()
    }

    pub closed spec fn spec_resumed(&self) -> bool {
        self.resumed
    }

    /// A fresh run from `init_param`; refuses a configuration that cannot stop observably.
    pub fn new(problem: O, solver: S, config: Config, init_param: Option<P>) -> (r: Result<
        Self,
        Error,
    >)
        ensures
            r is Ok <==> config.spec_valid(),
            r matches Err(e) ==> e is Configuration,
            r matches Ok(x) ==> {
                &&& x.spec_state().param == init_param
                &&& x.spec_state().iter == 0
                &&& x.spec_state().best_param is None
                &&& x.spec_state().termination == TerminationReason::NotTerminated
                &&& x.spec_state().counts == (EvalCounts { cost: 0, gradient: 0, hessian: 0, jacobian: 0, apply: 0 })
                &&& x.spec_counts() == x.spec_state().counts
                &&& x.spec_solver() == solver
                &&& x.spec_config() == config
                &&& !x.spec_resumed()
            },
    {
        config.validate()?;
        Ok(
            Executor {
                problem: Problem::new(problem),
                solver,
                state: IterState::new(init_param),
                config,
                resumed: false,
            },
        )
    }

    /// Resumes a run from `checkpoint` exactly as it was: no initialisation, and counters,
    /// best-so-far tracking and iteration number carry on.
    pub fn from_checkpoint(problem: O, checkpoint: Checkpoint<S, P, G>, config: Config) -> (r:
        Result<Self, Error>)
        ensures
            r is Ok <==> config.spec_valid(),
            r matches Err(e) ==> e is Configuration,
            r matches Ok(x) ==> {
                &&& x.spec_state() == checkpoint.state
                &&& x.spec_solver() == checkpoint.solver
                &&& x.spec_counts() == checkpoint.state.counts
                &&& x.spec_config() == config
                &&& x.spec_resumed()
            },
    {
        config.validate()?;
        let counts = checkpoint.state.counts;
        Ok(
            Executor {
                problem: Problem::with_counts(problem, counts),
                solver: checkpoint.solver,
                state: checkpoint.state,
                config,
                resumed: true,
            },
        )
    }
}

impl<O, S, P, G> Executor<O, S, P, G> where S: Solver<O, P, G> + Clone, P: Clone, G: Clone {
    /// Runs to the end with no sinks.
    pub fn run(self) -> (r: Outcome<S, P, G>)
        ensures
            Self::spec_outcome(self, r),
            r.observer_errors@.len() == 0,
    {
        let mut observers: Vec<(NoObserver, ObserverMode)> = Vec::new();
        self.run_observed(&mut observers)
    }

    /// What a run promises: it ends terminated, an error ends it with a solver error, and
    /// counters never go back. Its trace holds the state the loop began from and the state
    /// after each successful step: each step adds one to the iteration number and never
    /// raises the best cost, the run went on from every state but the last, and stopped at
    /// the first state where one of the engine's rules held. Without an error the trace ends
    /// at the final state, whose reason is what the stopping rules decide with the solver's
    /// own rule. A run resumed from a stopped state, or at its iteration cap, makes no step
    /// and fails nowhere; the iteration number stays within its cap; the checkpoint handed
    /// back is of the last multiple of the cadence that the run reached.
    pub open spec fn spec_outcome(self, r: Outcome<S, P, G>) -> bool {
        &&& r.state.termination.spec_terminated()
        &&& r.error is Some ==> r.state.termination == TerminationReason::SolverError
        &&& r.state.iter == self.spec_state().iter + r.iterations
        &&& r.state.best_cost <= self.spec_state().best_cost
        &&& self.spec_state().counts.le(r.state.counts)
        &&& r.init_terminated ==> r.iterations == 0
        &&& r.error is None && !(self.spec_resumed() && self.spec_state().termination.spec_terminated())
            ==> spec_decided::<O, S, P, G>(r.solver, r.state, self.spec_config())
        &&& self.spec_resumed() && self.spec_state().termination.spec_terminated() ==> {
            &&& r.error is None
            &&& r.iterations == 0
            &&& r.state == self.spec_state()
            &&& r.solver == self.spec_solver()
        }
        &&& self.spec_resumed() && self.spec_state().iter >= self.spec_config().max_iters ==> {
            &&& r.error is None
            &&& r.iterations == 0
        }
        &&& spec_checkpoint_ok(r.checkpoint, self.spec_config(), r.state.iter)
        &&& spec_checkpoint_last(r.checkpoint, self.spec_config(), self.spec_state().iter, r.state.iter)
        &&& spec_trace(r.trace@, self.spec_state().iter, r.iterations, self.spec_config())
        &&& r.error is None ==> r.trace@.last() == r.state
        &&& r.error is Some ==> r.state.iter == r.trace@.last().iter
        &&& r.error is None ==> (r.init_terminated <==> r.trace@[0].termination.spec_terminated())
        &&& self.spec_state().iter <= self.spec_config().max_iters ==> r.state.iter
            <= self.spec_config().max_iters
    }

    /// Runs to the end, calling each sink as its mode asks.
    /// Sinks that never fire report nothing.
    pub fn run_observed<B: Observer<P, G>>(self, observers: &mut Vec<(B, ObserverMode)>) -> (r:
        Outcome<S, P, G>)
        ensures
            Self::spec_outcome(self, r),
            spec_silent(old(observers)@) ==> r.observer_errors@.len() == 0,
    {
        let mut sink = NoCheckpointSink;
        self.run_with(observers, &mut sink)
    }

    /// Runs to the end, calling each observer as its mode asks and handing each checkpoint
    /// to `sink` as it is taken. Observers that never fire report nothing.
    #[verifier::rlimit(100)]
    pub fn run_with<B: Observer<P, G>, K: CheckpointSink<S, P, G>>(
        self,
        observers: &mut Vec<(B, ObserverMode)>,
        sink: &mut K,
    ) -> (r: Outcome<S, P, G>)
        ensures
            Self::spec_outcome(self, r),
            spec_silent(old(observers)@) ==> r.observer_errors@.len() == 0,
    {
        let start = clock_start();
        let mut failures: Vec<Error> = Vec::new();
        let Executor { mut problem, mut solver, state, config, resumed } = self;
        let (state, error) = if resumed {
            (state, None)
        } else {
            Self::init_phase(&mut problem, &mut solver, state, &config, observers, &mut failures, &start)
        };
        if error.is_some() {
            let ghost only = seq![state];
            return Outcome {
                state,
                solver,
                error,
                iterations: 0,
                init_terminated: false,
                observer_errors: failures,
                checkpoint: None,
                checkpoint_errors: Vec::new(),
                trace: Ghost(only),
            };
        }
        Self::loop_phase(problem, solver, state, config, observers, failures, sink, &start)
    }

    /// Runs the solver's initialisation once and decides whether the run already stops.
    fn init_phase<B: Observer<P, G>>(
        problem: &mut Problem<O>,
        solver: &mut S,
        state: IterState<P, G>,
        config: &Config,
        observers: &mut Vec<(B, ObserverMode)>,
        failures: &mut Vec<Error>,
        start: &std::time::Instant,
    ) -> (r: (IterState<P, G>, Option<Error>))
        ensures
            r.0.iter == state.iter,
            r.0.best_cost <= state.best_cost,
            state.counts.le(r.0.counts),
            r.1 is Some ==> r.0.termination == TerminationReason::SolverError,
            r.1 is None && r.0.iter >= config.max_iters ==> r.0.termination.spec_terminated(),
            r.1 is None && (config.target_cost matches Some(t) && r.0.cost <= t)
                ==> r.0.termination.spec_terminated(),
            r.1 is None ==> spec_decided::<O, S, P, G>(*final(solver), r.0, *config),
            r.1 is None && spec_rule_holds(r.0.iter, r.0.cost, r.0.counts, *config)
                ==> r.0.termination.spec_terminated(),
            spec_silent(old(observers)@) ==> spec_silent(final(observers)@) && final(failures)@
                == old(failures)@,
    {
        let saved = state.snapshot();
        match solver.init(problem, state) {
            Err(e) => {
                let counts = problem.counts();
                (failed(saved, counts), Some(e))
            },
            Ok((next, kv)) => {
                let counts = problem.counts();
                if !counts_le(&saved.counts, &counts) {
                    let e = Error::SolverLogic("counters went back".to_string());
                    return (failed(saved, counts), Some(e));
                }
                let elapsed = elapsed_ms(start);
                let iter = saved.iter;
                let mut next = merge(next, saved, iter, counts, elapsed);
                let reason = solver.terminate_internal(&next);
                let ghost undecided = next;
                next.termination = decide(reason, next.iter, next.cost, next.counts, config, elapsed);
                assert(next == (IterState { termination: next.termination, ..undecided }));
                assert(spec_decided::<O, S, P, G>(*solver, next, *config));
                let name = solver.name();
                notify(observers, true, next.termination.terminated(), name, &next, &kv, failures);
                (next, None)
            },
        }
    }
}

impl<O, S, P, G> Executor<O, S, P, G> where S: Solver<O, P, G> + Clone, P: Clone, G: Clone {
    /// One pass: a solver step, the engine's bookkeeping, the stopping rules, the sinks,
    /// and a checkpoint when one is due. Yields `true` when the step succeeded.
    fn pass<B: Observer<P, G>, K: CheckpointSink<S, P, G>>(
        problem: &mut Problem<O>,
        solver: &mut S,
        state: IterState<P, G>,
        config: &Config,
        observers: &mut Vec<(B, ObserverMode)>,
        failures: &mut Vec<Error>,
        checkpoint: &mut Option<Checkpoint<S, P, G>>,
        sink: &mut K,
        checkpoint_errors: &mut Vec<Error>,
        start: &std::time::Instant,
    ) -> (r: (IterState<P, G>, Option<Error>, bool))
        requires
            state.iter < config.max_iters,
        ensures
            r.2 ==> r.1 is None && r.0.iter == state.iter + 1,
            !r.2 ==> r.1 is Some && r.0.iter == state.iter,
            r.1 is Some ==> r.0.termination == TerminationReason::SolverError,
            r.0.best_cost <= state.best_cost,
            state.counts.le(r.0.counts),
            r.1 is None && r.0.iter >= config.max_iters ==> r.0.termination.spec_terminated(),
            r.1 is None && (config.target_cost matches Some(t) && r.0.cost <= t)
                ==> r.0.termination.spec_terminated(),
            r.1 is None ==> spec_decided::<O, S, P, G>(*final(solver), r.0, *config),
            r.1 is None && spec_rule_holds(r.0.iter, r.0.cost, r.0.counts, *config)
                ==> r.0.termination.spec_terminated(),
            spec_silent(old(observers)@) ==> spec_silent(final(observers)@) && final(failures)@
                == old(failures)@,
            spec_checkpoint_ok(*old(checkpoint), *config, state.iter) ==> spec_checkpoint_ok(
                *final(checkpoint),
                *config,
                r.0.iter,
            ),
            r.2 && (config.checkpoint_every matches Some(k) && k > 0 && r.0.iter % k == 0)
                ==> (*final(checkpoint) matches Some(c) && c.state.iter == r.0.iter),
            !(r.2 && (config.checkpoint_every matches Some(k) && k > 0 && r.0.iter % k == 0))
                ==> *final(checkpoint) == *old(checkpoint) && *final(sink) == *old(sink)
                && final(checkpoint_errors)@ == old(checkpoint_errors)@,
            r.2 && (config.checkpoint_every matches Some(k) && k > 0 && r.0.iter % k == 0)
                ==> exists|res: Result<(), Error>|
                #![trigger spec_error_of(res)]
                old(sink).spec_saved((*final(checkpoint))->Some_0, *final(sink), res)
                    && final(checkpoint_errors)@ == match spec_error_of(res) {
                    Some(e) => old(checkpoint_errors)@.push(e),
                    None => old(checkpoint_errors)@,
                },
    {
        let saved = state.snapshot();
        match solver.next_iter(problem, state) {
            Err(e) => {
                let counts = problem.counts();
                (failed(saved, counts), Some(e), false)
            },
            Ok((next, kv)) => {
                let counts = problem.counts();
                if let Some(e) = check_step(&next, &saved.counts, &counts) {
                    return (failed(saved, counts), Some(e), false);
                }
                let elapsed = elapsed_ms(start);
                let iter = saved.iter + 1;
                let mut next = merge(next, saved, iter, counts, elapsed);
                let reason = solver.terminate_internal(&next);
                let ghost undecided = next;
                next.termination = decide(reason, next.iter, next.cost, next.counts, config, elapsed);
                assert(next == (IterState { termination: next.termination, ..undecided }));
                assert(spec_decided::<O, S, P, G>(*solver, next, *config));
                let name = solver.name();
                notify(observers, false, next.termination.terminated(), name, &next, &kv, failures);
                if checkpoint_due(config.checkpoint_every, next.iter) {
                    let cp = Checkpoint { solver: solver.clone(), state: next.snapshot() };
                    let res = sink.save(&cp);
                    assert(spec_error_of(res) == spec_error_of(res));
                    match res {
                        Err(e) => checkpoint_errors.push(e),
                        Ok(()) => {},
                    }
                    *checkpoint = Some(cp);
                }
                (next, None, true)
            },
        }
    }

    /// Repeats passes until a stopping rule holds or a step fails.
    #[verifier::rlimit(60)]
    fn loop_phase<B: Observer<P, G>, K: CheckpointSink<S, P, G>>(
        problem: Problem<O>,
        solver: S,
        state: IterState<P, G>,
        config: Config,
        observers: &mut Vec<(B, ObserverMode)>,
        failures: Vec<Error>,
        sink: &mut K,
        start: &std::time::Instant,
    ) -> (r: Outcome<S, P, G>)
        ensures
            r.state.termination.spec_terminated(),
            r.error is Some ==> r.state.termination == TerminationReason::SolverError,
            r.state.iter == state.iter + r.iterations,
            r.state.best_cost <= state.best_cost,
            state.counts.le(r.state.counts),
            state.termination.spec_terminated() ==> r.iterations == 0,
            r.init_terminated ==> r.iterations == 0,
            r.error is None && (state.termination.spec_terminated() ==> spec_decided::<O, S, P, G>(
                solver,
                state,
                config,
            )) ==> spec_decided::<O, S, P, G>(r.solver, r.state, config),
            state.termination.spec_terminated() ==> {
                &&& r.error is None
                &&& r.state == state
                &&& r.solver == solver
            },
            state.iter >= config.max_iters ==> r.error is None && r.iterations == 0,
            state.termination.spec_terminated() || state.iter >= config.max_iters
                ==> r.init_terminated,
            spec_trace(r.trace@, state.iter, r.iterations, config),
            r.error is None ==> r.trace@.last() == r.state,
            r.error is Some ==> r.state.iter == r.trace@.last().iter,
            r.error is None ==> (r.init_terminated <==> r.trace@[0].termination.spec_terminated()),
            state.iter <= config.max_iters ==> r.state.iter <= config.max_iters,
            spec_checkpoint_ok(r.checkpoint, config, r.state.iter),
            spec_checkpoint_last(r.checkpoint, config, state.iter, r.state.iter),
            spec_silent(old(observers)@) ==> r.observer_errors@ == failures@,
    {
        let mut problem = problem;
        let mut solver = solver;
        let mut failures = failures;
        let ghost old_failures = failures@;
        let mut state = state;
        let ghost first = state;
        let ghost first_solver = solver;
        if !state.termination.terminated() {
            let reason = solver.terminate_internal(&state);
            let elapsed = elapsed_ms(start);
            let ghost undecided = state;
            state.termination = decide(reason, state.iter, state.cost, state.counts, &config, elapsed);
            assert(state == (IterState { termination: state.termination, ..undecided }));
            assert(spec_decided::<O, S, P, G>(solver, state, config));
        }
        let init_terminated = state.termination.terminated();
        let ghost begin = state;
        let ghost mut trace: Seq<IterState<P, G>> = seq![state];
        let mut iterations: u64 = 0;
        let mut error: Option<Error> = None;
        let mut checkpoint: Option<Checkpoint<S, P, G>> = None;
        let mut checkpoint_errors: Vec<Error> = Vec::new();
        while !state.termination.terminated()
            invariant
                !state.termination.spec_terminated() ==> state.iter < config.max_iters,
                state.iter == first.iter + iterations,
                state.best_cost <= first.best_cost,
                first.counts.le(state.counts),
                first.termination.spec_terminated() ==> iterations == 0 && state == first
                    && solver == first_solver && error is None,
                first.iter >= config.max_iters ==> iterations == 0 && error is None
                    && state.termination.spec_terminated(),
                error is Some ==> state.termination == TerminationReason::SolverError,
                init_terminated == begin.termination.spec_terminated(),
                begin.termination.spec_terminated() ==> iterations == 0 && state == begin,
                begin.iter == first.iter,
                first.termination.spec_terminated() ==> begin == first,
                first.iter >= config.max_iters ==> begin.termination.spec_terminated(),
                spec_rule_holds(begin.iter, begin.cost, begin.counts, config)
                    ==> begin.termination.spec_terminated(),
                spec_trace(trace, first.iter, iterations, config),
                trace[0] == begin,
                error is None ==> trace.last() == state,
                error is Some ==> state.iter == trace.last().iter,
                first.iter <= config.max_iters ==> state.iter <= config.max_iters,
                spec_checkpoint_ok(checkpoint, config, state.iter),
                spec_checkpoint_last(checkpoint, config, first.iter, state.iter),
                spec_silent(old(observers)@) ==> spec_silent(observers@) && failures@
                    == old_failures,
                first.iter <= state.iter,
                error is None && (first.termination.spec_terminated() ==> spec_decided::<
                    O,
                    S,
                    P,
                    G,
                >(first_solver, first, config)) && state.termination.spec_terminated()
                    ==> spec_decided::<O, S, P, G>(solver, state, config),
            decreases config.max_iters - state.iter + if state.termination.spec_terminated() {
                0int
            } else {
                1int
            },
        {
            let ghost before = state;
            let (next, e, ok) = Self::pass(
                &mut problem,
                &mut solver,
                state,
                &config,
                observers,
                &mut failures,
                &mut checkpoint,
                sink,
                &mut checkpoint_errors,
                start,
            );
            if ok {
                iterations = iterations + 1;
                proof {
                    trace = trace.push(next);
                }
            }
            if e.is_some() {
                error = e;
            }
            proof {
                if ok {
                    if let Some(k) = config.checkpoint_every {
                        if k > 0 && next.iter % k != 0 {
                            lemma_last_multiple_step(before.iter, k);
                        }
                    }
                }
            }
            state = next;
        }
        Outcome {
            state,
            solver,
            error,
            iterations,
            init_terminated,
            observer_errors: failures,
            checkpoint,
            checkpoint_errors,
            trace: Ghost(trace),
        }
    }
}

/// A run resumed from a checkpoint carries on from it: the iteration number continues
/// from the checkpoint's by the successful steps alone, no counter goes back and the best
/// cost does not rise above the checkpoint's.
pub proof fn lemma_resume_carries_on<O, S, P, G>(
    checkpoint: Checkpoint<S, P, G>,
    config: Config,
    resumed: Executor<O, S, P, G>,
    r: Outcome<S, P, G>,
)
    where
        S: Solver<O, P, G> + Clone,
        P: Clone,
        G: Clone,
    requires
        resumed.spec_state() == checkpoint.state,
        Executor::spec_outcome(resumed, r),
    ensures
        r.state.iter == checkpoint.state.iter + r.iterations,
        checkpoint.state.counts.le(r.state.counts),
        r.state.best_cost <= checkpoint.state.best_cost,
        r.state.termination.spec_terminated(),
{
}

/// A run that ends without error, under a solver whose own rule declares nothing on its
/// final state, stops for the engine's first matching rule: the target cost, then the
/// iteration cap, then the evaluation caps in the order cost, gradient, Hessian, Jacobian, apply.
pub proof fn lemma_engine_reason<O, S, P, G>(x: Executor<O, S, P, G>, r: Outcome<S, P, G>)
    where
        S: Solver<O, P, G> + Clone,
        P: Clone,
        G: Clone,
    requires
        Executor::spec_outcome(x, r),
        r.error is None,
        !(x.spec_resumed() && x.spec_state().termination.spec_terminated()),
        r.solver.spec_stop(IterState { termination: TerminationReason::NotTerminated, ..r.state })
            == TerminationReason::NotTerminated,
    ensures
        r.state.termination != TerminationReason::SolverConverged,
        r.state.termination != TerminationReason::SolverError,
        (x.spec_config().target_cost matches Some(t) && r.state.cost <= t)
            ==> r.state.termination == TerminationReason::TargetCostReached,
        !(x.spec_config().target_cost matches Some(t) && r.state.cost <= t) && r.state.iter
            >= x.spec_config().max_iters ==> r.state.termination
            == TerminationReason::MaxItersReached,
        !(x.spec_config().target_cost matches Some(t) && r.state.cost <= t) && r.state.iter
            < x.spec_config().max_iters && !spec_exhausted(
            x.spec_config().max_evals,
            r.state.counts,
            OpKind::Cost,
        ) && spec_exhausted(x.spec_config().max_evals, r.state.counts, OpKind::Gradient)
            ==> r.state.termination == TerminationReason::MaxEvalsReached(OpKind::Gradient),
{
    let ms = choose|ms: u64|
        r.state.termination == #[trigger] spec_decide(
            r.solver.spec_stop(IterState { termination: TerminationReason::NotTerminated, ..r.state }),
            r.state.iter,
            r.state.cost,
            r.state.counts,
            x.spec_config(),
            ms,
        );
}

/// A run without error whose state when the loop begins (after initialisation, for a fresh
/// run) already meets the target cost makes no step; when the solver's own rule declares
/// nothing, it stops for the target at the iteration it started from.
pub proof fn lemma_target_after_init<O, S, P, G>(x: Executor<O, S, P, G>, r: Outcome<S, P, G>)
    where
        S: Solver<O, P, G> + Clone,
        P: Clone,
        G: Clone,
    requires
        Executor::spec_outcome(x, r),
        r.error is None,
        !(x.spec_resumed() && x.spec_state().termination.spec_terminated()),
        x.spec_config().target_cost matches Some(t) && r.trace@[0].cost <= t,
        r.solver.spec_stop(IterState { termination: TerminationReason::NotTerminated, ..r.state })
            == TerminationReason::NotTerminated,
    ensures
        r.iterations == 0,
        r.state.iter == x.spec_state().iter,
        r.state.termination == TerminationReason::TargetCostReached,
{
    let t = r.trace@;
    assert(spec_rule_holds(t[0].iter, t[0].cost, t[0].counts, x.spec_config()));
    assert(t[0].termination.spec_terminated());
    if r.iterations > 0 {
        assert(t[1].iter == t[0].iter + 1);
        assert(t[0].termination == TerminationReason::NotTerminated);
    }
    assert(t.last() == t[0]);
    lemma_engine_reason(x, r);
}

} // verus!
