use std::cell::Cell;

use argmin::error::{Error, OpKind};
use argmin::executor::{check_step, checkpoint_due, Checkpoint, CheckpointSink, Executor};
use argmin::landweber::Landweber;
use argmin::math::ScaledSub;
use argmin::observer::{fires, notify, Observer, ObserverMode};
use argmin::problem::{CostFunction, Gradient, Jacobian, Operator, Problem};
use argmin::solver::Solver;
use argmin::state::{EvalCounts, IterState, Kv, TerminationReason, WORST_COST};
use argmin::termination::{decide, update_best, Config};

/// Gradient `p / 2`, elementwise, with cost `|p0| + |p1|`.
struct Halving;

impl Gradient<Vec<i64>, Vec<i64>> for Halving {
    fn gradient(&self, p: &Vec<i64>) -> Result<Vec<i64>, Error> {
        Ok(p.iter().map(|x| x / 2).collect())
    }
}

impl CostFunction<Vec<i64>> for Halving {
    fn cost(&self, p: &Vec<i64>) -> Result<i64, Error> {
        Ok(p.iter().map(|x| x.abs()).sum())
    }
}

/// Halving, but the gradient fails on its third call.
struct FailsThird {
    calls: Cell<u64>,
}

impl Gradient<Vec<i64>, Vec<i64>> for FailsThird {
    fn gradient(&self, p: &Vec<i64>) -> Result<Vec<i64>, Error> {
        self.calls.set(self.calls.get() + 1);
        if self.calls.get() == 3 {
            Err(Error::ProblemEvaluation("third call".to_string()))
        } else {
            Ok(p.iter().map(|x| x / 2).collect())
        }
    }
}

/// Evaluates the cost in `init` and on each step, counting its steps; moves by `-1` on
/// the first entry, or by a fixed list of costs when one is given.
#[derive(Clone)]
struct CostWalker {
    steps: u64,
    costs: Vec<i64>,
}

impl<O: CostFunction<Vec<i64>>> Solver<O, Vec<i64>, Vec<i64>> for CostWalker {
    fn name(&self) -> &'static str {
        "CostWalker"
    }

    fn init(
        &mut self,
        problem: &mut Problem<O>,
        state: IterState<Vec<i64>, Vec<i64>>,
    ) -> Result<(IterState<Vec<i64>, Vec<i64>>, Option<Kv>), Error> {
        let c = problem.cost(state.param.as_ref().unwrap())?;
        Ok((state.with_cost(c), None))
    }

    fn next_iter(
        &mut self,
        problem: &mut Problem<O>,
        mut state: IterState<Vec<i64>, Vec<i64>>,
    ) -> Result<(IterState<Vec<i64>, Vec<i64>>, Option<Kv>), Error> {
        let mut p = state.take_param().unwrap();
        p[0] -= 1;
        let mut c = problem.cost(&p)?;
        if (self.steps as usize) < self.costs.len() {
            c = self.costs[self.steps as usize];
        }
        self.steps += 1;
        let mut kv = Kv::new();
        kv.push("step".to_string(), self.steps.to_string());
        Ok((state.with_param(p).with_cost(c), Some(kv)))
    }

    fn terminate_internal(&self, _state: &IterState<Vec<i64>, Vec<i64>>) -> TerminationReason {
        TerminationReason::NotTerminated
    }
}

/// Records the best cost and iteration seen at each call.
struct Recorder {
    best: Vec<i64>,
    iters: Vec<u64>,
    inits: u64,
}

impl<P, G> Observer<P, G> for Recorder {
    fn observe_init(&mut self, _name: &str, _state: &IterState<P, G>, _kv: &Option<Kv>) -> Result<(), Error> {
        self.inits += 1;
        Ok(())
    }

    fn observe_iter(&mut self, state: &IterState<P, G>, _kv: &Option<Kv>) -> Result<(), Error> {
        self.best.push(state.best_cost);
        self.iters.push(state.iter);
        Ok(())
    }
}

fn halve_steps(p: Vec<i64>, omega: i64, n: usize) -> Vec<i64> {
    let mut p = p;
    for _ in 0..n {
        p = p.iter().map(|x| x - omega * (x / 2)).collect();
    }
    p
}

#[test]
fn landweber_fixed_step_max_iters() {
    let exec = Executor::new(Halving, Landweber::new(1i64), Config::new().max_iters(10), Some(vec![1200i64, -1200]))
        .unwrap();
    let out = exec.run();
    assert!(out.error.is_none());
    assert_eq!(out.state.iter, 10);
    assert_eq!(out.iterations, 10);
    assert_eq!(out.state.termination, TerminationReason::MaxItersReached);
    assert_eq!(out.state.param, Some(halve_steps(vec![1200, -1200], 1, 10)));
    assert_eq!(out.state.counts.gradient, 10);
    assert_eq!(out.state.best_cost, WORST_COST);
}

#[test]
fn landweber_step_values() {
    // one step from [1200, -1200] with omega 1: [1200 - 600, -1200 + 600]
    let exec = Executor::new(Halving, Landweber::new(1i64), Config::new().max_iters(1), Some(vec![1200i64, -1200]))
        .unwrap();
    let out = exec.run();
    assert_eq!(out.state.param, Some(vec![600, -600]));
    assert_eq!(out.state.gradient, Some(vec![600, -600]));
}

#[test]
fn landweber_step_without_param_is_logic_error() {
    let lw = Landweber::new(1i64);
    let mut problem = Problem::new(Halving);
    let state: IterState<Vec<i64>, Vec<i64>> = IterState::new(None);
    let r = lw.step(&mut problem, state);
    assert!(matches!(r, Err(Error::SolverLogic(_))));
    assert_eq!(problem.counts().gradient, 0);
}

#[test]
fn landweber_new_keeps_omega() {
    let lw = Landweber::new(7i64);
    assert_eq!(*lw.omega(), 7);
}

#[test]
fn target_cost_reached_after_init() {
    let solver = CostWalker { steps: 0, costs: vec![] };
    let exec = Executor::new(Halving, solver, Config::new().target_cost(0), Some(vec![0i64, 0])).unwrap();
    let out = exec.run();
    assert!(out.error.is_none());
    assert_eq!(out.state.iter, 0);
    assert_eq!(out.iterations, 0);
    assert!(out.init_terminated);
    assert_eq!(out.state.termination, TerminationReason::TargetCostReached);
    assert_eq!(out.solver.steps, 0);
    assert_eq!(out.state.best_cost, 0);
}

#[test]
fn gradient_failure_on_third_call() {
    let problem = FailsThird { calls: Cell::new(0) };
    let exec = Executor::new(problem, Landweber::new(1i64), Config::new().max_iters(10), Some(vec![64i64, 64]))
        .unwrap();
    let out = exec.run();
    assert!(matches!(out.error, Some(Error::ProblemEvaluation(_))));
    assert_eq!(out.state.termination, TerminationReason::SolverError);
    assert_eq!(out.state.iter, 2);
    assert_eq!(out.iterations, 2);
    assert_eq!(out.state.counts.gradient, 3);
}

#[test]
fn max_evals_gradient() {
    let config = Config::new().max_evals(OpKind::Gradient, 5);
    let exec = Executor::new(Halving, Landweber::new(1i64), config, Some(vec![1000i64, 1000])).unwrap();
    let out = exec.run();
    assert!(out.error.is_none());
    assert_eq!(out.state.iter, 5);
    assert_eq!(out.state.termination, TerminationReason::MaxEvalsReached(OpKind::Gradient));
}

#[test]
fn problem_counts_every_call() {
    let mut problem = Problem::new(FailsThird { calls: Cell::new(0) });
    let p = vec![4i64, 4];
    let mut failures = 0;
    for _ in 0..7 {
        if problem.gradient(&p).is_err() {
            failures += 1;
        }
    }
    assert_eq!(failures, 1);
    assert_eq!(problem.counts().gradient, 7);
    assert_eq!(problem.counts().cost, 0);
    assert_eq!(problem.counts().hessian, 0);
}

#[test]
fn best_cost_never_rises() {
    let solver = CostWalker { steps: 0, costs: vec![50, 40, 45, 30, 30, 60, 10, 20] };
    let exec = Executor::new(Halving, solver, Config::new().max_iters(8), Some(vec![100i64, 0])).unwrap();
    let mut observers = vec![(Recorder { best: vec![], iters: vec![], inits: 0 }, ObserverMode::Always)];
    let out = exec.run_observed(&mut observers);
    let rec = &observers[0].0;
    assert_eq!(rec.inits, 1);
    assert_eq!(rec.best, vec![50, 40, 40, 30, 30, 30, 10, 10]);
    assert_eq!(rec.iters, vec![1, 2, 3, 4, 5, 6, 7, 8]);
    for w in rec.best.windows(2) {
        assert!(w[1] <= w[0]);
    }
    assert_eq!(out.state.best_cost, 10);
    assert_eq!(out.state.last_best_iter, 7);
    assert_eq!(out.state.best_param, Some(vec![93, 0]));
    assert_eq!(out.state.counts.cost, 9);
}

#[test]
fn final_observer_fires_once() {
    let exec = Executor::new(Halving, Landweber::new(1i64), Config::new().max_iters(4), Some(vec![16i64, 16])).unwrap();
    let mut observers = vec![
        (Recorder { best: vec![], iters: vec![], inits: 0 }, ObserverMode::Final),
        (Recorder { best: vec![], iters: vec![], inits: 0 }, ObserverMode::Never),
    ];
    let _ = exec.run_observed(&mut observers);
    assert_eq!(observers[0].0.iters, vec![4]);
    assert_eq!(observers[0].0.inits, 0);
    assert!(observers[1].0.iters.is_empty());
}

#[test]
fn checkpoint_resume_matches_uninterrupted() {
    let config = Config::new().max_iters(9).checkpoint_every(4);
    let straight = Executor::new(Halving, Landweber::new(1i64), config, Some(vec![900i64, -300])).unwrap().run();

    let first = Executor::new(Halving, Landweber::new(1i64), config.max_iters(6), Some(vec![900i64, -300]))
        .unwrap()
        .run();
    let cp: Checkpoint<Landweber<i64>, Vec<i64>, Vec<i64>> = first.checkpoint.unwrap();
    assert_eq!(cp.state.iter, 4);
    let resumed = Executor::from_checkpoint(Halving, cp, config).unwrap().run();

    assert_eq!(resumed.state.iter, straight.state.iter);
    assert_eq!(resumed.state.counts, straight.state.counts);
    assert_eq!(resumed.state.param, straight.state.param);
    assert_eq!(resumed.state.best_cost, straight.state.best_cost);
    assert_eq!(resumed.state.termination, straight.state.termination);
    assert_eq!(resumed.iterations, 5);
}

#[test]
fn zero_iterations_without_other_rule_is_rejected() {
    let r: Result<Executor<Halving, Landweber<i64>, Vec<i64>, Vec<i64>>, Error> =
        Executor::new(Halving, Landweber::new(1i64), Config::new().max_iters(0), Some(vec![1i64]));
    assert!(matches!(r, Err(Error::Configuration(_))));
    let r: Result<Executor<Halving, Landweber<i64>, Vec<i64>, Vec<i64>>, Error> = Executor::new(Halving, Landweber::new(1i64), Config::new().max_iters(0).target_cost(3), Some(vec![1i64]));
    assert!(r.is_ok());
}

#[test]
fn zero_iterations_with_target_stops_at_once() {
    let exec = Executor::new(Halving, Landweber::new(1i64), Config::new().max_iters(0).target_cost(-5), Some(vec![8i64]))
        .unwrap();
    let out = exec.run();
    assert_eq!(out.state.iter, 0);
    assert_eq!(out.state.termination, TerminationReason::MaxItersReached);
    assert_eq!(out.state.param, Some(vec![8]));
}

#[test]
fn decide_precedence() {
    let counts = EvalCounts { cost: 3, gradient: 5, hessian: 0, jacobian: 0, apply: 0 };
    let config = Config::new().max_iters(10).target_cost(0).max_evals(OpKind::Gradient, 5).max_time_ms(100);
    assert_eq!(decide(TerminationReason::SolverConverged, 10, -1, counts, &config, 500), TerminationReason::SolverConverged);
    assert_eq!(decide(TerminationReason::NotTerminated, 10, -1, counts, &config, 500), TerminationReason::TargetCostReached);
    assert_eq!(decide(TerminationReason::NotTerminated, 10, 1, counts, &config, 500), TerminationReason::MaxItersReached);
    assert_eq!(
        decide(TerminationReason::NotTerminated, 9, 1, counts, &config, 500),
        TerminationReason::MaxEvalsReached(OpKind::Gradient)
    );
    let fewer = EvalCounts { cost: 3, gradient: 4, hessian: 0, jacobian: 0, apply: 0 };
    assert_eq!(decide(TerminationReason::NotTerminated, 9, 1, fewer, &config, 500), TerminationReason::TimedOut);
    assert_eq!(decide(TerminationReason::NotTerminated, 9, 1, fewer, &config, 99), TerminationReason::NotTerminated);
}

#[test]
fn update_best_only_on_strictly_lower_cost() {
    let s: IterState<Vec<i64>, Vec<i64>> = IterState::new(Some(vec![1])).with_cost(7);
    let s = update_best(s);
    assert_eq!(s.best_cost, 7);
    assert_eq!(s.best_param, Some(vec![1]));
    let mut s = s.with_param(vec![2]);
    s.iter = 3;
    let s = update_best(s);
    assert_eq!(s.best_param, Some(vec![1]));
    assert_eq!(s.last_best_iter, 0);
    let s = update_best(s.with_cost(6));
    assert_eq!(s.best_param, Some(vec![2]));
    assert_eq!(s.last_best_iter, 3);
}

#[test]
fn scaled_sub_integers() {
    assert_eq!(10i64.scaled_sub(&3, &4), -2);
    assert_eq!(i64::MIN.scaled_sub(&1, &1), i64::MAX);
    assert_eq!(vec![10i64, 20, 30].scaled_sub(&2, &vec![1i64, 2]), vec![8, 16, 30]);
    assert_eq!(Vec::<i64>::new().scaled_sub(&2, &vec![1i64]), Vec::<i64>::new());
}

#[test]
fn checkpoint_cadence() {
    assert!(checkpoint_due(Some(4), 8));
    assert!(!checkpoint_due(Some(4), 6));
    assert!(!checkpoint_due(Some(0), 0));
    assert!(!checkpoint_due(None, 4));
}

#[test]
fn observer_modes() {
    assert!(fires(ObserverMode::Always, true, false));
    assert!(!fires(ObserverMode::Final, true, true));
    assert!(fires(ObserverMode::Final, false, true));
    assert!(!fires(ObserverMode::Final, false, false));
    assert!(!fires(ObserverMode::Never, false, true));
}

#[test]
fn counts_saturate() {
    let mut c = EvalCounts { cost: u64::MAX, gradient: 1, hessian: 0, jacobian: 0, apply: 0 };
    c.record(OpKind::Cost);
    c.record(OpKind::Gradient);
    assert_eq!(c, EvalCounts { cost: u64::MAX, gradient: 2, hessian: 0, jacobian: 0, apply: 0 });
    assert_eq!(c.count(OpKind::Gradient), 2);
}

/// Fails on every call whose iteration is even, naming the iteration.
struct EvenFails;

impl<P, G> Observer<P, G> for EvenFails {
    fn observe_init(&mut self, _name: &str, _state: &IterState<P, G>, _kv: &Option<Kv>) -> Result<(), Error> {
        Err(Error::SolverLogic("init".to_string()))
    }

    fn observe_iter(&mut self, state: &IterState<P, G>, _kv: &Option<Kv>) -> Result<(), Error> {
        if state.iter % 2 == 0 {
            Err(Error::SolverLogic(format!("iter {}", state.iter)))
        } else {
            Ok(())
        }
    }
}

fn messages(errors: &[Error]) -> Vec<String> {
    errors
        .iter()
        .map(|e| match e {
            Error::SolverLogic(m) | Error::ProblemEvaluation(m) | Error::Configuration(m) => m.clone(),
        })
        .collect()
}

#[test]
fn check_step_flags_missing_param_and_falling_counts() {
    let lower = EvalCounts { cost: 1, gradient: 2, hessian: 0, jacobian: 0, apply: 0 };
    let higher = EvalCounts { cost: 1, gradient: 3, hessian: 0, jacobian: 0, apply: 0 };
    let with: IterState<Vec<i64>, Vec<i64>> = IterState::new(Some(vec![1]));
    let without: IterState<Vec<i64>, Vec<i64>> = IterState::new(None);
    assert!(check_step(&with, &lower, &higher).is_none());
    assert!(matches!(check_step(&without, &lower, &higher), Some(Error::SolverLogic(_))));
    assert!(matches!(check_step(&with, &higher, &lower), Some(Error::SolverLogic(_))));
}

#[test]
fn notify_collects_failures_in_order() {
    let mut observers = vec![
        (EvenFails, ObserverMode::Always),
        (EvenFails, ObserverMode::Never),
        (EvenFails, ObserverMode::Final),
    ];
    let mut state: IterState<Vec<i64>, Vec<i64>> = IterState::new(Some(vec![1]));
    state.iter = 4;
    let mut failures = vec![Error::Configuration("earlier".to_string())];
    notify(&mut observers, false, true, "x", &state, &None, &mut failures);
    assert_eq!(messages(&failures), vec!["earlier", "iter 4", "iter 4"]);
    notify(&mut observers, true, false, "x", &state, &None, &mut failures);
    assert_eq!(messages(&failures), vec!["earlier", "iter 4", "iter 4", "init"]);
}

#[test]
fn run_reports_sink_failures() {
    let exec = Executor::new(Halving, Landweber::new(1i64), Config::new().max_iters(4), Some(vec![16i64, 16])).unwrap();
    let mut observers = vec![(EvenFails, ObserverMode::Always)];
    let out = exec.run_observed(&mut observers);
    assert_eq!(out.state.termination, TerminationReason::MaxItersReached);
    assert_eq!(messages(&out.observer_errors), vec!["init", "iter 2", "iter 4"]);

    let exec = Executor::new(Halving, Landweber::new(1i64), Config::new().max_iters(4), Some(vec![16i64, 16])).unwrap();
    let mut silent = vec![(EvenFails, ObserverMode::Never)];
    assert!(exec.run_observed(&mut silent).observer_errors.is_empty());
    let exec = Executor::new(Halving, Landweber::new(1i64), Config::new().max_iters(4), Some(vec![16i64, 16])).unwrap();
    assert!(exec.run().observer_errors.is_empty());
}

#[test]
fn checkpoint_is_last_multiple() {
    let config = Config::new().max_iters(11).checkpoint_every(3);
    let out = Executor::new(Halving, Landweber::new(1i64), config, Some(vec![900i64])).unwrap().run();
    let cp = out.checkpoint.unwrap();
    assert_eq!(cp.state.iter, 9);
    assert_eq!(cp.state.param, Some(halve_steps(vec![900], 1, 9)));
    let short = Executor::new(Halving, Landweber::new(1i64), config.max_iters(2), Some(vec![900i64])).unwrap().run();
    assert!(short.checkpoint.is_none());
}

#[test]
fn resume_from_stopped_state_does_nothing() {
    let done = Executor::new(Halving, Landweber::new(1i64), Config::new().max_iters(3), Some(vec![40i64])).unwrap().run();
    let cp = Checkpoint { solver: done.solver, state: done.state };
    let again = Executor::from_checkpoint(Halving, cp, Config::new().max_iters(10)).unwrap().run();
    assert!(again.error.is_none());
    assert_eq!(again.iterations, 0);
    assert_eq!(again.state.iter, 3);
    assert_eq!(again.state.termination, TerminationReason::MaxItersReached);
    assert_eq!(again.state.counts.gradient, 3);
}

#[test]
fn landweber_init_and_next_iter() {
    let mut lw = Landweber::new(2i64);
    let mut problem = Problem::new(Halving);
    let state: IterState<Vec<i64>, Vec<i64>> = IterState::new(Some(vec![10, -7]));
    let (state, kv) = lw.init(&mut problem, state).unwrap();
    assert!(kv.is_none());
    assert_eq!(state.param, Some(vec![10, -7]));
    assert_eq!(problem.counts().gradient, 0);
    let (next, kv) = lw.next_iter(&mut problem, state).unwrap();
    assert!(kv.is_none());
    // gradient [5, -3]; 10 - 2 * 5 = 0, -7 - 2 * (-3) = -1
    assert_eq!(next.param, Some(vec![0, -1]));
    assert_eq!(next.gradient, Some(vec![5, -3]));
    assert_eq!(next.iter, 0);
    assert_eq!(problem.counts().gradient, 1);
    assert_eq!(
        <Landweber<i64> as Solver<Halving, Vec<i64>, Vec<i64>>>::terminate_internal(&lw, &next),
        TerminationReason::NotTerminated
    );
}

/// Keeps the iteration of every checkpoint it is given; refuses the second one.
struct Shelf {
    saved: Vec<u64>,
}

impl<S, P, G> CheckpointSink<S, P, G> for Shelf {
    fn save(&mut self, checkpoint: &Checkpoint<S, P, G>) -> Result<(), Error> {
        self.saved.push(checkpoint.state.iter);
        if self.saved.len() == 2 {
            Err(Error::Configuration("disk full".to_string()))
        } else {
            Ok(())
        }
    }
}

#[test]
fn checkpoints_reach_the_sink_as_taken() {
    let config = Config::new().max_iters(7).checkpoint_every(2);
    let exec = Executor::new(Halving, Landweber::new(1i64), config, Some(vec![700i64])).unwrap();
    let mut observers: Vec<(EvenFails, ObserverMode)> = Vec::new();
    let mut shelf = Shelf { saved: vec![] };
    let out = exec.run_with(&mut observers, &mut shelf);
    assert!(out.error.is_none());
    assert_eq!(out.state.iter, 7);
    assert_eq!(shelf.saved, vec![2, 4, 6]);
    assert_eq!(messages(&out.checkpoint_errors), vec!["disk full"]);
    assert_eq!(out.checkpoint.unwrap().state.iter, 6);
}

struct Residuals;

impl Jacobian<i64, i64> for Residuals {
    fn jacobian(&self, p: &i64) -> Result<i64, Error> {
        Ok(2 * p)
    }
}

impl Operator<i64, i64> for Residuals {
    fn apply(&self, p: &i64) -> Result<i64, Error> {
        if *p < 0 {
            Err(Error::ProblemEvaluation("negative".to_string()))
        } else {
            Ok(p + 1)
        }
    }
}

#[test]
fn jacobian_and_apply_are_counted() {
    let mut problem = Problem::new(Residuals);
    assert_eq!(problem.jacobian::<i64, i64>(&4).unwrap(), 8);
    assert_eq!(problem.apply::<i64, i64>(&4).unwrap(), 5);
    assert!(problem.apply::<i64, i64>(&-1).is_err());
    let c = problem.counts();
    assert_eq!((c.jacobian, c.apply, c.gradient), (1, 2, 0));
    let config = Config::new().max_iters(100).max_evals(OpKind::Apply, 2);
    assert_eq!(decide(TerminationReason::NotTerminated, 1, 0, c, &config, 0), TerminationReason::MaxEvalsReached(OpKind::Apply));
}
