//! Backtracking: shrink the unit step until the objective decreases enough.
use vstd::prelude::*;
use crate::line_search::{trial_verdict_spec, SufficientDecreaseCondition, TrialVerdict, Trials};
use crate::number::Floating;

verus! {

/// The parameters of a backtracking search.
#[derive(Clone, Copy, Debug)]
pub struct BackTracking {
    /// Armijo constant.
    pub c1: Floating,
    /// The factor by which a rejected step shrinks.
    pub beta: Floating,
}

/// The verdict of a backtracking search on trial number `i`, where the
/// objective took the value `f_trial` and `sufficient_decrease` is the
/// outcome of the Armijo test. A trial outside the domain of the objective is
/// rejected whatever the test says, and counts like any other.
pub open spec fn backtracking_verdict_spec(
    i: int,
    max_iter: int,
    f_trial: Floating,
    sufficient_decrease: bool,
) -> TrialVerdict {
    trial_verdict_spec(i, max_iter, f_trial.is_finite_spec() && sufficient_decrease)
}

impl BackTracking {
    pub fn new(c1: Floating, beta: Floating) -> (r: Self)
        ensures
            r.c1 == c1,
            r.beta == beta,
    {
        BackTracking { c1, beta }
    }

    /// The factor by which a rejected step shrinks.
    pub fn beta(&self) -> (r: Floating)
        ensures
            r == self.beta,
    {
        self.beta
    }

    /// The step a search starts from.
    pub fn initial_step(&self) -> (r: Floating)
        ensures
            r == Floating::one_spec(),
    {
        Floating::one()
    }

    /// The Armijo test in the form that takes the allowed decrease whole:
    /// `decrease` is the value at the trial minus the value at the iterate,
    /// and `bound` is `c1` times the directional derivative.
    pub fn sufficient_decrease_condition(&self, decrease: Floating, bound: Floating) -> (r: bool)
        ensures
            r == decrease.le_spec(bound),
    {
        decrease.le(bound)
    }

    /// Counts the trial that was just made and says what to do after it:
    /// see [`backtracking_verdict_spec`].
    pub fn verdict(&self, trials: &mut Trials, f_trial: &Floating, sufficient_decrease: bool) -> (r:
        TrialVerdict)
        requires
            old(trials).done_spec() < old(trials).budget(),
        ensures
            final(trials).wf(),
            final(trials).done_spec() == old(trials).done_spec() + 1,
            final(trials).budget() == old(trials).budget(),
            r == backtracking_verdict_spec(
                old(trials).done_spec() as int,
                old(trials).budget() as int,
                *f_trial,
                sufficient_decrease,
            ),
    {
        let in_domain = !(f_trial.is_nan() || f_trial.is_infinite());
        trials.judge(in_domain && sufficient_decrease)
    }
}

impl SufficientDecreaseCondition for BackTracking {
    fn c1(&self) -> (r: Floating)
        ensures
            r == self.c1,
    {
        self.c1
    }
}

/// A backtracking search accepts a step only where the objective is a finite
/// number and the Armijo test holds, and it never asks for more than
/// `max_iter` trials.
pub proof fn lemma_backtracking_verdict(i: int, max_iter: int, f_trial: Floating, sufficient_decrease: bool)
    requires
        0 <= i < max_iter,
    ensures
        backtracking_verdict_spec(i, max_iter, f_trial, sufficient_decrease) == TrialVerdict::Accept
            <==> f_trial.is_finite_spec() && sufficient_decrease,
        backtracking_verdict_spec(i, max_iter, f_trial, sufficient_decrease)
            == TrialVerdict::ShrinkAndRetry ==> i + 1 < max_iter,
        f_trial.is_nan_spec() || f_trial.is_infinite_spec() ==> backtracking_verdict_spec(
            i,
            max_iter,
            f_trial,
            sufficient_decrease,
        ) != TrialVerdict::Accept,
{
}

} // verus!
