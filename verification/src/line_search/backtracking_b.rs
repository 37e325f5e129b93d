//! Backtracking for box-constrained methods: every trial point is projected
//! into the box before the objective is asked.
use vstd::prelude::*;
use crate::line_search::backtracking::backtracking_verdict_spec;
use crate::line_search::{SufficientDecreaseCondition, TrialVerdict, Trials};
use crate::number::{box_projection_spec, BoxProjection, Floating};
use crate::bounds::HasBounds;

verus! {

/// The parameters of a backtracking search in a box.
#[derive(Debug)]
pub struct BackTrackingB {
    /// Armijo constant.
    pub c1: Floating,
    /// The factor by which a rejected step shrinks.
    pub beta: Floating,
    pub lower_bound: Vec<Floating>,
    pub upper_bound: Vec<Floating>,
}

/// Another name of the same search.
pub type ProjectedBackTracking = BackTrackingB;

impl BackTrackingB {
    pub fn new(c1: Floating, beta: Floating, lower_bound: Vec<Floating>, upper_bound: Vec<Floating>) -> (r:
        Self)
        ensures
            r.c1 == c1,
            r.beta == beta,
            r.lower_bound == lower_bound,
            r.upper_bound == upper_bound,
    {
        BackTrackingB { c1, beta, lower_bound, upper_bound }
    }

    /// The factor by which a rejected step shrinks.
    pub fn beta(&self) -> (r: Floating)
        ensures
            r == self.beta,
    {
        self.beta
    }

    /// The step a search starts from.
    pub fn initial_step(&self) -> (r: Floating)
        ensures
            r == Floating::one_spec(),
    {
        Floating::one()
    }

    /// The trial point `x_trial`, projected into the box.
    pub fn project(&self, x_trial: &Vec<Floating>) -> (r: Vec<Floating>)
        requires
            x_trial.len() == self.lower_bound.len(),
            x_trial.len() == self.upper_bound.len(),
        ensures
            r@ == box_projection_spec(x_trial@, self.lower_bound@, self.upper_bound@),
    {
        x_trial.box_projection(&self.lower_bound, &self.upper_bound)
    }

    /// The Armijo test of a projected trial: `decrease` is the value at the
    /// projected trial minus the value at the iterate, and `bound` is
    /// `-(c1 / t)` times the squared distance between the two points.
    pub fn sufficient_decrease_with_bounds(&self, decrease: &Floating, bound: &Floating) -> (r: bool)
        ensures
            r == decrease.le_spec(*bound),
    {
        decrease.le(*bound)
    }

    /// Another name of [`BackTrackingB::sufficient_decrease_with_bounds`].
    pub fn sufficient_decrease_condition(&self, decrease: &Floating, bound: &Floating) -> (r: bool)
        ensures
            r == decrease.le_spec(*bound),
    {
        self.sufficient_decrease_with_bounds(decrease, bound)
    }

    /// Counts the trial that was just made and says what to do after it, as
    /// the search without bounds does.
    pub fn verdict(&self, trials: &mut Trials, f_trial: &Floating, sufficient_decrease: bool) -> (r:
        TrialVerdict)
        requires
            old(trials).done_spec() < old(trials).budget(),
        ensures
            final(trials).wf(),
            final(trials).done_spec() == old(trials).done_spec() + 1,
            final(trials).budget() == old(trials).budget(),
            r == backtracking_verdict_spec(
                old(trials).done_spec() as int,
                old(trials).budget() as int,
                *f_trial,
                sufficient_decrease,
            ),
    {
        let in_domain = !(f_trial.is_nan() || f_trial.is_infinite());
        trials.judge(in_domain && sufficient_decrease)
    }
}

impl SufficientDecreaseCondition for BackTrackingB {
    fn c1(&self) -> (r: Floating)
        ensures
            r == self.c1,
    {
        self.c1
    }
}

impl HasBounds for BackTrackingB {
    fn lower_bound(&self) -> (r: &Vec<Floating>)
        ensures
            *r == self.lower_bound,
    {
        &self.lower_bound
    }

    fn upper_bound(&self) -> (r: &Vec<Floating>)
        ensures
            *r == self.upper_bound,
    {
        &self.upper_bound
    }

    fn set_lower_bound(&mut self, lower_bound: Vec<Floating>)
        ensures
            *final(self) == (BackTrackingB { lower_bound, ..*old(self) }),
    {
        self.lower_bound = lower_bound;
    }

    fn set_upper_bound(&mut self, upper_bound: Vec<Floating>)
        ensures
            *final(self) == (BackTrackingB { upper_bound, ..*old(self) }),
    {
        self.upper_bound = upper_bound;
    }
}

} // verus!
