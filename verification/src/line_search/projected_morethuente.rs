//! The bracketing line search of Moré and Thuente for box-constrained
//! methods: every trial point is projected into the box before the objective
//! is asked, and the search stops at the limits of the step rather than at
//! the ends of the bracket.
use vstd::prelude::*;
use crate::line_search::morethuente::{update_interval_spec, Bracket, MoreThuente, StopReason};
use crate::number::{box_projection_spec, BoxProjection, Floating};

verus! {

/// The parameters of the search and the box.
#[derive(Debug)]
pub struct ProjectedMoreThuente {
    pub search: MoreThuente,
    pub lower_bound: Vec<Floating>,
    pub upper_bound: Vec<Floating>,
}

/// The reason to stop at the trial step of `bracket`, if there is one.
pub open spec fn projected_stop_reason_spec(
    search: MoreThuente,
    bracket: Bracket,
    strong_wolfe: bool,
) -> Option<StopReason> {
    if strong_wolfe {
        Some(StopReason::StrongWolfe)
    } else if bracket.interval_converged {
        Some(StopReason::IntervalConverged)
    } else if bracket.t.eq_value(search.t_min) {
        Some(StopReason::AtLowerEnd)
    } else if bracket.t.eq_value(search.t_max) {
        Some(StopReason::AtUpperEnd)
    } else {
        None
    }
}

impl ProjectedMoreThuente {
    /// The search with its default parameters in the box `[lower_bound,
    /// upper_bound]`.
    pub fn new(lower_bound: Vec<Floating>, upper_bound: Vec<Floating>) -> (r: Self)
        ensures
            r.search == MoreThuente::default_spec(),
            r.lower_bound == lower_bound,
            r.upper_bound == upper_bound,
    {
        ProjectedMoreThuente { search: MoreThuente::default(), lower_bound, upper_bound }
    }

    pub fn with_deltas(self, delta_min: Floating, delta: Floating, delta_max: Floating) -> (r: Self)
        ensures
            r.search == (MoreThuente { delta_min, delta, delta_max, ..self.search }),
            r.lower_bound == self.lower_bound,
            r.upper_bound == self.upper_bound,
    {
        ProjectedMoreThuente {
            search: self.search.with_deltas(delta_min, delta, delta_max),
            lower_bound: self.lower_bound,
            upper_bound: self.upper_bound,
        }
    }

    pub fn with_t_min(self, t_min: Floating) -> (r: Self)
        ensures
            r.search == (MoreThuente { t_min, ..self.search }),
            r.lower_bound == self.lower_bound,
            r.upper_bound == self.upper_bound,
    {
        ProjectedMoreThuente {
            search: self.search.with_t_min(t_min),
            lower_bound: self.lower_bound,
            upper_bound: self.upper_bound,
        }
    }

    pub fn with_t_max(self, t_max: Floating) -> (r: Self)
        ensures
            r.search == (MoreThuente { t_max, ..self.search }),
            r.lower_bound == self.lower_bound,
            r.upper_bound == self.upper_bound,
    {
        ProjectedMoreThuente {
            search: self.search.with_t_max(t_max),
            lower_bound: self.lower_bound,
            upper_bound: self.upper_bound,
        }
    }

    pub fn with_c1(self, c1: Floating) -> (r: Self)
        requires
            Floating::zero_spec().lt_spec(c1),
            c1.lt_spec(self.search.c2),
        ensures
            r.search == (MoreThuente { c1, ..self.search }),
            r.lower_bound == self.lower_bound,
            r.upper_bound == self.upper_bound,
    {
        ProjectedMoreThuente {
            search: self.search.with_c1(c1),
            lower_bound: self.lower_bound,
            upper_bound: self.upper_bound,
        }
    }

    pub fn with_c2(self, c2: Floating) -> (r: Self)
        requires
            Floating::zero_spec().lt_spec(c2),
            c2.lt_spec(Floating::one_spec()),
            self.search.c1.lt_spec(c2),
        ensures
            r.search == (MoreThuente { c2, ..self.search }),
            r.lower_bound == self.lower_bound,
            r.upper_bound == self.upper_bound,
    {
        ProjectedMoreThuente {
            search: self.search.with_c2(c2),
            lower_bound: self.lower_bound,
            upper_bound: self.upper_bound,
        }
    }

    /// The trial point `x_trial`, projected into the box.
    pub fn project(&self, x_trial: &Vec<Floating>) -> (r: Vec<Floating>)
        requires
            x_trial.len() == self.lower_bound.len(),
            x_trial.len() == self.upper_bound.len(),
        ensures
            r@ == box_projection_spec(x_trial@, self.lower_bound@, self.upper_bound@),
    {
        x_trial.box_projection(&self.lower_bound, &self.upper_bound)
    }

    /// Narrows the bracket `[tl, tu]` around the trial `t`, as the search
    /// without bounds does: see [`MoreThuente::update_interval`].
    pub fn update_interval(
        f_tl: &Floating,
        f_t: &Floating,
        slope: &Floating,
        tl: &mut Floating,
        t: Floating,
        tu: &mut Floating,
    ) -> (converged: bool)
        ensures
            (*final(tl), *final(tu), converged) == update_interval_spec(
                *f_tl,
                *f_t,
                *slope,
                *old(tl),
                t,
                *old(tu),
            ),
    {
        MoreThuente::update_interval(f_tl, f_t, slope, tl, t, tu)
    }

    /// Whether the search returns the trial step of `bracket`, and why:
    /// `strong_wolfe` says whether the strong Wolfe conditions hold there.
    pub fn stop_reason(&self, bracket: &Bracket, strong_wolfe: bool) -> (r: Option<StopReason>)
        ensures
            r == projected_stop_reason_spec(self.search, *bracket, strong_wolfe),
    {
        if strong_wolfe {
            Some(StopReason::StrongWolfe)
        } else if bracket.interval_converged {
            Some(StopReason::IntervalConverged)
        } else if bracket.t.eq(self.search.t_min) {
            Some(StopReason::AtLowerEnd)
        } else if bracket.t.eq(self.search.t_max) {
            Some(StopReason::AtUpperEnd)
        } else {
            None
        }
    }
}

} // verus!
