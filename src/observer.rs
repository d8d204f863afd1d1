use vstd::prelude::*;

use crate::error::Error;
use crate::state::{IterState, Kv};

verus! {

/// When a registered sink is called.
#[derive(Clone, Copy, Debug, PartialEq, Eq, Structural)]
pub enum ObserverMode {
    /// After initialisation and after every iteration.
    Always,
    /// Only after the iteration that ends the run.
    Final,
    Never,
}

/// A diagnostic sink. It sees the state and may not change it.
pub trait Observer<P, G>: Sized {
    /// Whether one call on `self`, after initialisation (`at_init`) or after an iteration,
    /// with `state` and `kv`, may leave the sink as `after` and return `r`. By default a
    /// sink may do anything with what it sees.
    open spec fn spec_observed(
        &self,
        at_init: bool,
        state: IterState<P, G>,
        kv: Option<Kv>,
        after: Self,
        r: Result<(), Error>,
    ) -> bool {
        true
    }

    fn observe_init(&mut self, solver_name: &str, state: &IterState<P, G>, kv: &Option<Kv>) -> (r:
        Result<(), Error>)
        ensures
            old(self).spec_observed(true, *state, *kv, *final(self), r),
    ;

    fn observe_iter(&mut self, state: &IterState<P, G>, kv: &Option<Kv>) -> (r: Result<(), Error>)
        ensures
            old(self).spec_observed(false, *state, *kv, *final(self), r),
    ;
}

/// The error of a sink's result, if it failed.
pub open spec fn spec_error_of(r: Result<(), Error>) -> Option<Error> {
    match r {
        Ok(()) => None,
        Err(e) => Some(e),
    }
}

/// The errors among `results`, in order.
pub open spec fn spec_errors(results: Seq<Option<Error>>) -> Seq<Error>
    decreases results.len(),
{
    if results.len() == 0 {
        Seq::empty()
    } else {
        let rest = spec_errors(results.drop_last());
        match results.last() {
            Some(e) => rest.push(e),
            None => rest,
        }
    }
}

/// No sink in `observers` is ever called.
pub open spec fn spec_silent<B>(observers: Seq<(B, ObserverMode)>) -> bool {
    forall|i: int| 0 <= i < observers.len() ==> (#[trigger] observers[i]).1 == ObserverMode::Never
}

proof fn lemma_no_errors(results: Seq<Option<Error>>)
    requires
        forall|i: int| 0 <= i < results.len() ==> (#[trigger] results[i]) is None,
    ensures
        spec_errors(results) == Seq::<Error>::empty(),
    decreases results.len(),
{
    if results.len() > 0 {
        lemma_no_errors(results.drop_last());
    }
}

/// What one round of notification did: `results` holds, for each sink, the error it
/// returned; a sink whose mode fires was called once with `state` and `kv`, the others are
/// untouched, and `failures` grew by exactly the errors, in order of registration.
pub open spec fn spec_notified<P, G, B: Observer<P, G>>(
    before: Seq<(B, ObserverMode)>,
    after: Seq<(B, ObserverMode)>,
    at_init: bool,
    is_final: bool,
    state: IterState<P, G>,
    kv: Option<Kv>,
    results: Seq<Option<Error>>,
    failures_before: Seq<Error>,
    failures_after: Seq<Error>,
) -> bool {
    &&& after.len() == before.len()
    &&& results.len() == before.len()
    &&& forall|i: int|
        0 <= i < before.len() ==> {
            &&& (#[trigger] after[i]).1 == before[i].1
            &&& spec_fires(before[i].1, at_init, is_final) ==> exists|r: Result<(), Error>|
                #![trigger spec_error_of(r)]
                before[i].0.spec_observed(at_init, state, kv, after[i].0, r) && results[i]
                    == spec_error_of(r)
            &&& !spec_fires(before[i].1, at_init, is_final) ==> after[i] == before[i]
                && results[i] is None
        }
    &&& failures_after == failures_before + spec_errors(results)
}

/// A sink that records nothing.
pub struct NoObserver;

impl<P, G> Observer<P, G> for NoObserver {
    fn observe_init(&mut self, solver_name: &str, state: &IterState<P, G>, kv: &Option<Kv>) -> Result<(), Error> {
        Ok(())
    }

    fn observe_iter(&mut self, state: &IterState<P, G>, kv: &Option<Kv>) -> Result<(), Error> {
        Ok(())
    }
}

pub open spec fn spec_fires(mode: ObserverMode, at_init: bool, is_final: bool) -> bool {
    match mode {
        ObserverMode::Always => true,
        ObserverMode::Final => !at_init && is_final,
        ObserverMode::Never => false,
    }
}

/// Whether a sink registered with `mode` is called at this point of the run.
pub fn fires(mode: ObserverMode, at_init: bool, is_final: bool) -> (r: bool)
    ensures
        r == spec_fires(mode, at_init, is_final),
{
    match mode {
        ObserverMode::Always => true,
        ObserverMode::Final => !at_init && is_final,
        ObserverMode::Never => false,
    }
}

/// Calls every sink whose mode matches, in order of registration, and appends the
/// failures that sinks report to `failures`. A failure does not stop the others.
pub fn notify<P, G, B: Observer<P, G>>(
    observers: &mut Vec<(B, ObserverMode)>,
    at_init: bool,
    is_final: bool,
    solver_name: &str,
    state: &IterState<P, G>,
    kv: &Option<Kv>,
    failures: &mut Vec<Error>,
)
    ensures
        exists|results: Seq<Option<Error>>|
            spec_notified(
                old(observers)@,
                final(observers)@,
                at_init,
                is_final,
                *state,
                *kv,
                results,
                old(failures)@,
                final(failures)@,
            ),
        spec_silent(old(observers)@) ==> spec_silent(final(observers)@) && final(failures)@ == old(
            failures,
        )@,
{
    let n = observers.len();
    let mut i: usize = 0;
    let ghost mut results: Seq<Option<Error>> = Seq::empty();
    while i < n
        invariant
            n == old(observers)@.len(),
            observers@.len() == n,
            i <= n,
            results.len() == i,
            forall|j: int| i <= j < n ==> #[trigger] observers@[j] == old(observers)@[j],
            forall|j: int|
                0 <= j < i ==> {
                    &&& (#[trigger] observers@[j]).1 == old(observers)@[j].1
                    &&& spec_fires(old(observers)@[j].1, at_init, is_final) ==> exists|
                        r: Result<(), Error>,
                    |
                        #![trigger spec_error_of(r)]
                        old(observers)@[j].0.spec_observed(
                            at_init,
                            *state,
                            *kv,
                            observers@[j].0,
                            r,
                        ) && results[j] == spec_error_of(r)
                    &&& !spec_fires(old(observers)@[j].1, at_init, is_final) ==> observers@[j]
                        == old(observers)@[j] && results[j] is None
                },
            failures@ == old(failures)@ + spec_errors(results),
        decreases n - i,
    {
        let mode = observers[i].1;
        let ghost prev = observers@;
        let ghost prev_results = results;
        if fires(mode, at_init, is_final) {
            let res = if at_init {
                observers[i].0.observe_init(solver_name, state, kv)
            } else {
                observers[i].0.observe_iter(state, kv)
            };
            proof {
                results = results.push(spec_error_of(res));
                assert(prev[i as int].0.spec_observed(at_init, *state, *kv, observers@[i as int].0, res)
                    && results[i as int] == spec_error_of(res));
            }
            match res {
                Err(e) => {
                    failures.push(e);
                },
                Ok(()) => {},
            }
        } else {
            proof {
                results = results.push(None);
            }
        }
        proof {
            assert(results.drop_last() =~= prev_results);
            assert(failures@ =~= old(failures)@ + spec_errors(results));
            assert forall|j: int| 0 <= j < n && j != i implies #[trigger] observers@[j] == prev[j] by {}
            assert(observers@[i as int].1 == prev[i as int].1);
        }
        i = i + 1;
    }
    proof {
        assert(spec_notified(
            old(observers)@,
            observers@,
            at_init,
            is_final,
            *state,
            *kv,
            results,
            old(failures)@,
            failures@,
        ));
        if spec_silent(old(observers)@) {
            lemma_silent_round(
                old(observers)@,
                observers@,
                at_init,
                is_final,
                *state,
                *kv,
                results,
                old(failures)@,
                failures@,
            );
        }
    }
}

proof fn lemma_silent_round<P, G, B: Observer<P, G>>(
    before: Seq<(B, ObserverMode)>,
    after: Seq<(B, ObserverMode)>,
    at_init: bool,
    is_final: bool,
    state: IterState<P, G>,
    kv: Option<Kv>,
    results: Seq<Option<Error>>,
    failures_before: Seq<Error>,
    failures_after: Seq<Error>,
)
    requires
        spec_notified(
            before,
            after,
            at_init,
            is_final,
            state,
            kv,
            results,
            failures_before,
            failures_after,
        ),
        spec_silent(before),
    ensures
        spec_silent(after),
        failures_after == failures_before,
{
    assert forall|j: int| 0 <= j < results.len() implies (#[trigger] results[j]) is None by {
        assert(after[j].1 == before[j].1);
        assert(before[j].1 == ObserverMode::Never);
    }
    lemma_no_errors(results);
    assert(failures_after =~= failures_before);
    assert forall|j: int| 0 <= j < after.len() implies (#[trigger] after[j]).1
        == ObserverMode::Never by {
        assert(before[j].1 == ObserverMode::Never);
    }
}

} // verus!
