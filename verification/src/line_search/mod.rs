//! Line searches: what they share, and one module for each of them.
//!
//! A line search alternates arithmetic along the ray with decisions on the
//! numbers that the arithmetic gives. The decisions are here; the arithmetic
//! is the caller's, who hands over each number it computed.
use vstd::prelude::*;
use crate::func_eval::FuncEvalMultivariate;
use crate::number::Floating;

pub mod backtracking;
pub mod backtracking_b;
pub mod gll_quadratic;
pub mod morethuente;
pub mod nosearch;
pub mod projected_morethuente;

verus! {

/// A strategy that picks the length of the step along a direction.
pub trait LineSearch {
    fn compute_step_len<O: Fn(&Vec<Floating>) -> FuncEvalMultivariate>(
        &mut self,
        x_k: &Vec<Floating>,
        eval_x_k: &FuncEvalMultivariate,
        direction_k: &Vec<Floating>,
        oracle: &O,
        max_iter: usize,
    ) -> Floating
        requires
            forall|x: &Vec<Floating>| oracle.requires((x,)),
    ;
}

/// The Armijo test of a trial step.
pub trait SufficientDecreaseCondition {
    /// The Armijo constant.
    fn c1(&self) -> Floating;

    /// Whether the trial decreases the objective enough: `decrease` is the
    /// value at the trial minus the reference value, and `bound` is what the
    /// decrease may at most be, `c1 * t * <g, d>` for a step `t` along `d`.
    fn sufficient_decrease(&self, decrease: &Floating, bound: &Floating) -> (r: bool)
        ensures
            r == decrease.le_spec(*bound),
    {
        decrease.le(*bound)
    }
}

/// The curvature tests of a trial step.
pub trait CurvatureCondition {
    /// The curvature constant.
    fn c2(&self) -> Floating;

    /// Whether the slope at the trial has risen enough: `slope` is the
    /// directional derivative at the trial, and `bound` is `c2` times the
    /// directional derivative at the start.
    fn curvature_condition(&self, slope: &Floating, bound: &Floating) -> (r: bool)
        ensures
            r == bound.le_spec(*slope),
    {
        slope.ge(*bound)
    }

    /// Whether the slope at the trial is flat enough: `slope` is the
    /// directional derivative at the trial, and `bound` is `c2` times the
    /// absolute value of the directional derivative at the start.
    fn strong_curvature_condition(&self, slope: &Floating, bound: &Floating) -> (r: bool)
        ensures
            r == slope.abs_spec().le_spec(*bound),
    {
        slope.abs().le(*bound)
    }
}

/// Both tests together.
pub trait WolfeConditions: SufficientDecreaseCondition + CurvatureCondition {
    /// `decrease` and `decrease_bound` are those of the Armijo test, `slope`
    /// and `slope_bound` those of the curvature test.
    fn wolfe_conditions_with_directional_derivative(
        &self,
        decrease: &Floating,
        decrease_bound: &Floating,
        slope: &Floating,
        slope_bound: &Floating,
    ) -> (r: bool)
        ensures
            r == (decrease.le_spec(*decrease_bound) && slope_bound.le_spec(*slope)),
    {
        self.sufficient_decrease(decrease, decrease_bound) && self.curvature_condition(
            slope,
            slope_bound,
        )
    }

    /// `decrease` and `decrease_bound` are those of the Armijo test, `slope`
    /// and `slope_bound` those of the strong curvature test.
    fn strong_wolfe_conditions_with_directional_derivative(
        &self,
        decrease: &Floating,
        decrease_bound: &Floating,
        slope: &Floating,
        slope_bound: &Floating,
    ) -> (r: bool)
        ensures
            r == (decrease.le_spec(*decrease_bound) && slope.abs_spec().le_spec(*slope_bound)),
    {
        self.sufficient_decrease(decrease, decrease_bound) && self.strong_curvature_condition(
            slope,
            slope_bound,
        )
    }
}

impl<T> WolfeConditions for T where T: SufficientDecreaseCondition + CurvatureCondition {

}

/// What a shrinking line search does after a trial.
#[derive(Clone, Copy, Debug, PartialEq, Eq, Structural)]
pub enum TrialVerdict {
    /// Return the step that was tried.
    Accept,
    /// Take a smaller step and try it.
    ShrinkAndRetry,
    /// Return the step that was tried, though it failed: the budget is spent.
    Exhausted,
}

/// The verdict on trial number `i` (from zero) of at most `max_iter` trials:
/// `acceptable` says whether the step passed the tests of the search.
pub open spec fn trial_verdict_spec(i: int, max_iter: int, acceptable: bool) -> TrialVerdict {
    if acceptable {
        TrialVerdict::Accept
    } else if i + 1 < max_iter {
        TrialVerdict::ShrinkAndRetry
    } else {
        TrialVerdict::Exhausted
    }
}

/// The trials of one search: how many were made, of how many at most.
#[derive(Clone, Copy, Debug)]
pub struct Trials {
    done: usize,
    max_iter: usize,
}

impl Trials {
    /// The number of trials made.
    pub closed spec fn done_spec(&self) -> nat {
        self.done as nat
    }

    /// The number of trials that may be made in all.
    pub closed spec fn budget(&self) -> nat {
        self.max_iter as nat
    }

    /// No more trials were made than may be.
    pub open spec fn wf(&self) -> bool {
        self.done_spec() <= self.budget()
    }

    /// A search of at most `max_iter` trials, before the first.
    pub fn new(max_iter: usize) -> (r: Self)
        ensures
            r.wf(),
            r.done_spec() == 0,
            r.budget() == max_iter,
    {
        Trials { done: 0, max_iter }
    }

    pub fn done(&self) -> (r: usize)
        ensures
            r == self.done_spec(),
    {
        self.done
    }

    pub fn max_iter(&self) -> (r: usize)
        ensures
            r == self.budget(),
    {
        self.max_iter
    }

    /// Whether another trial may be made.
    pub fn remain(&self) -> (r: bool)
        ensures
            r == (self.done_spec() < self.budget()),
    {
        self.done < self.max_iter
    }

    /// Counts the trial that was just made and gives the verdict on it:
    /// `acceptable` says whether the step passed the tests of the search.
    pub fn judge(&mut self, acceptable: bool) -> (r: TrialVerdict)
        requires
            old(self).done_spec() < old(self).budget(),
        ensures
            final(self).wf(),
            final(self).done_spec() == old(self).done_spec() + 1,
            final(self).budget() == old(self).budget(),
            r == trial_verdict_spec(
                old(self).done_spec() as int,
                old(self).budget() as int,
                acceptable,
            ),
    {
        self.done = self.done + 1;
        if acceptable {
            TrialVerdict::Accept
        } else if self.done < self.max_iter {
            TrialVerdict::ShrinkAndRetry
        } else {
            TrialVerdict::Exhausted
        }
    }
}

/// A search goes on after a trial only while trials remain: the verdict
/// that asks for another trial leaves room for it, and the trial that spends
/// the budget is accepted or ends the search.
pub proof fn lemma_trials_stay_within_budget(i: int, max_iter: int, acceptable: bool)
    requires
        0 <= i < max_iter,
    ensures
        trial_verdict_spec(i, max_iter, acceptable) == TrialVerdict::ShrinkAndRetry ==> i + 1
            < max_iter,
        i + 1 == max_iter ==> trial_verdict_spec(i, max_iter, acceptable)
            != TrialVerdict::ShrinkAndRetry,
        trial_verdict_spec(i, max_iter, acceptable) == TrialVerdict::Accept <==> acceptable,
{
}

/// A trial that passes the Armijo test along a descent direction does not
/// lie above the reference value: where the decrease is within its bound and
/// the bound is not positive, the decrease is not positive.
pub proof fn lemma_sufficient_decrease_is_a_decrease(decrease: Floating, bound: Floating)
    requires
        decrease.le_spec(bound),
        bound.le_spec(Floating::zero_spec()),
    ensures
        decrease.le_spec(Floating::zero_spec()),
{
}

} // verus!
