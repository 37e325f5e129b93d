//! The bracketing line search of Moré and Thuente: its parameters, its
//! bracket, and every decision it takes on the numbers that the caller
//! computes along the ray.
//!
//! One trial goes as follows. The caller evaluates the objective at the
//! trial step and asks [`MoreThuente::stop_reason`]. Where the search goes on
//! it hands the values at the trial to
//! [`MoreThuente::enter_modified_updating`], evaluates at the lower end of
//! the bracket, and asks [`MoreThuente::trial_case`] which interpolants the
//! next trial needs. It computes them, lets the function of that case choose
//! among them, clamps the choice with [`MoreThuente::clamp_step`], and
//! narrows the bracket with [`Bracket::advance`].
use vstd::prelude::*;
use crate::line_search::{CurvatureCondition, SufficientDecreaseCondition};
use crate::number::Floating;

verus! {

/// The bit pattern of the default Armijo constant, `1e-4`.
pub const DEFAULT_C1_BITS: u64 = 0x3F1A_36E2_EB1C_432D;

/// The bit pattern of the default curvature constant, `0.9`.
pub const DEFAULT_C2_BITS: u64 = 0x3FEC_CCCC_CCCC_CCCD;

/// The bit pattern of the default `delta_min`, `0.58333333`.
pub const DEFAULT_DELTA_MIN_BITS: u64 = 0x3FE2_AAAA_A8E0_896D;

/// The bit pattern of the default `delta`, `0.66`.
pub const DEFAULT_DELTA_BITS: u64 = 0x3FE5_1EB8_51EB_851F;

/// The bit pattern of the default `delta_max`, `1.1`.
pub const DEFAULT_DELTA_MAX_BITS: u64 = 0x3FF1_9999_9999_999A;

/// The parameters of the search.
#[derive(Clone, Copy, Debug)]
pub struct MoreThuente {
    /// Armijo constant.
    pub c1: Floating,
    /// Curvature constant.
    pub c2: Floating,
    /// Smallest step the search may return.
    pub t_min: Floating,
    /// Largest step the search may return.
    pub t_max: Floating,
    pub delta_min: Floating,
    /// How far towards the upper end of the bracket an extrapolated trial
    /// may go.
    pub delta: Floating,
    pub delta_max: Floating,
}

/// What the search remembers from one trial to the next.
#[derive(Clone, Copy, Debug)]
pub struct Bracket {
    /// The trial step.
    pub t: Floating,
    /// The end of the bracket with the lowest value seen so far.
    pub tl: Floating,
    /// The other end of the bracket.
    pub tu: Floating,
    /// Whether the search compares the objective itself rather than the
    /// auxiliary function.
    pub use_modified_updating: bool,
    /// Whether the last update found the bracket shrunk to a point.
    pub interval_converged: bool,
    /// The number of trials that the search has gone past.
    pub trials: usize,
}

/// Why the search returns the trial step.
#[derive(Clone, Copy, Debug, PartialEq, Eq, Structural)]
pub enum StopReason {
    StrongWolfe,
    IntervalConverged,
    AtLowerEnd,
    AtUpperEnd,
}

/// Which interpolants the next trial is chosen from.
#[derive(Clone, Copy, Debug, PartialEq, Eq, Structural)]
pub enum TrialCase {
    /// The value at the trial is higher than at the lower end.
    HigherValue,
    /// The value is not higher and the derivatives have opposite signs.
    OppositeSlopes,
    /// The value is not higher, the signs agree and the derivative has not
    /// grown in absolute value.
    SmallerSlope,
    /// The value is not higher, the signs agree and the derivative has grown.
    LargerSlope,
}

/// The reason to stop at the trial step of `bracket`, if there is one.
pub open spec fn stop_reason_spec(bracket: Bracket, strong_wolfe: bool) -> Option<StopReason> {
    if strong_wolfe {
        Some(StopReason::StrongWolfe)
    } else if bracket.interval_converged {
        Some(StopReason::IntervalConverged)
    } else if bracket.t.eq_value(bracket.tl) {
        Some(StopReason::AtLowerEnd)
    } else if bracket.t.eq_value(bracket.tu) {
        Some(StopReason::AtUpperEnd)
    } else {
        None
    }
}

/// The case of a trial with value `f_t` and derivative `g_t`, against the
/// value `f_tl` and derivative `g_tl` at the lower end; `g_product` is
/// `g_t * g_tl` as the caller computed it.
pub open spec fn trial_case_spec(
    f_tl: Floating,
    f_t: Floating,
    g_tl: Floating,
    g_t: Floating,
    g_product: Floating,
) -> TrialCase {
    if f_tl.lt_spec(f_t) {
        TrialCase::HigherValue
    } else if g_product.lt_spec(Floating::zero_spec()) {
        TrialCase::OppositeSlopes
    } else if g_t.abs_spec().le_spec(g_tl.abs_spec()) {
        TrialCase::SmallerSlope
    } else {
        TrialCase::LargerSlope
    }
}

/// The bracket ends and the convergence flag after a trial: `(tl, tu,
/// converged)`. `slope` is `g_t * (tl - t)` as the caller computed it.
pub open spec fn update_interval_spec(
    f_tl: Floating,
    f_t: Floating,
    slope: Floating,
    tl: Floating,
    t: Floating,
    tu: Floating,
) -> (Floating, Floating, bool) {
    if f_tl.lt_spec(f_t) {
        (tl, t, false)
    } else if Floating::zero_spec().lt_spec(slope) {
        (t, tu, false)
    } else if slope.lt_spec(Floating::zero_spec()) {
        (t, tl, false)
    } else {
        (tl, tu, true)
    }
}

impl Bracket {
    /// The bracket after the trial `t` was chosen and clamped: the ends move
    /// as [`update_interval_spec`] says, the updating mode stays.
    pub open spec fn advance_spec(self, f_tl: Floating, f_t: Floating, slope: Floating, t: Floating) -> Bracket {
        let (tl, tu, converged) = update_interval_spec(f_tl, f_t, slope, self.tl, t, self.tu);
        Bracket {
            t,
            tl,
            tu,
            use_modified_updating: self.use_modified_updating,
            interval_converged: converged,
            trials: if self.trials < usize::MAX {
                (self.trials + 1) as usize
            } else {
                self.trials
            },
        }
    }

    /// Whether the search has gone past `max_iter` trials, and returns its
    /// trial step without asking the objective there.
    pub fn budget_spent(&self, max_iter: usize) -> (r: bool)
        ensures
            r == (self.trials >= max_iter),
    {
        self.trials >= max_iter
    }

    /// Takes `t` as the next trial, narrows the bracket and counts the trial
    /// that the search has gone past. `f_tl`, `f_t` are
    /// the values at the lower end and at the previous trial, and `slope` is
    /// the derivative at the previous trial times `tl - t`.
    pub fn advance(&mut self, f_tl: &Floating, f_t: &Floating, slope: &Floating, t: Floating)
        ensures
            *final(self) == old(self).advance_spec(*f_tl, *f_t, *slope, t),
    {
        let mut tl = self.tl;
        let mut tu = self.tu;
        let converged = MoreThuente::update_interval(f_tl, f_t, slope, &mut tl, t, &mut tu);
        self.t = t;
        self.tl = tl;
        self.tu = tu;
        self.interval_converged = converged;
        if self.trials < usize::MAX {
            self.trials = self.trials + 1;
        }
    }

    /// `modified` once the search has switched to modified updating,
    /// `auxiliary` before.
    pub fn select<T>(&self, modified: T, auxiliary: T) -> (r: T)
        ensures
            r == if self.use_modified_updating {
                modified
            } else {
                auxiliary
            },
    {
        if self.use_modified_updating {
            modified
        } else {
            auxiliary
        }
    }
}

impl Default for MoreThuente {
    fn default() -> (r: Self)
        ensures
            r == MoreThuente::default_spec(),
    {
        MoreThuente {
            c1: Floating::from_bits(DEFAULT_C1_BITS),
            c2: Floating::from_bits(DEFAULT_C2_BITS),
            t_min: Floating::zero(),
            t_max: Floating::infinity(),
            delta_min: Floating::from_bits(DEFAULT_DELTA_MIN_BITS),
            delta: Floating::from_bits(DEFAULT_DELTA_BITS),
            delta_max: Floating::from_bits(DEFAULT_DELTA_MAX_BITS),
        }
    }
}

impl MoreThuente {
    pub open spec fn default_spec() -> MoreThuente {
        MoreThuente {
            c1: Floating { bits: DEFAULT_C1_BITS },
            c2: Floating { bits: DEFAULT_C2_BITS },
            t_min: Floating::zero_spec(),
            t_max: Floating::infinity_spec(),
            delta_min: Floating { bits: DEFAULT_DELTA_MIN_BITS },
            delta: Floating { bits: DEFAULT_DELTA_BITS },
            delta_max: Floating { bits: DEFAULT_DELTA_MAX_BITS },
        }
    }

    /// The constants are in their range: `0 < c1 < c2 < 1`.
    pub open spec fn wf(&self) -> bool {
        &&& Floating::zero_spec().lt_spec(self.c1)
        &&& self.c1.lt_spec(self.c2)
        &&& self.c2.lt_spec(Floating::one_spec())
    }

    pub fn with_deltas(self, delta_min: Floating, delta: Floating, delta_max: Floating) -> (r: Self)
        ensures
            r == (MoreThuente { delta_min, delta, delta_max, ..self }),
    {
        MoreThuente { delta_min, delta, delta_max, ..self }
    }

    pub fn with_t_min(self, t_min: Floating) -> (r: Self)
        ensures
            r == (MoreThuente { t_min, ..self }),
    {
        MoreThuente { t_min, ..self }
    }

    pub fn with_t_max(self, t_max: Floating) -> (r: Self)
        ensures
            r == (MoreThuente { t_max, ..self }),
    {
        MoreThuente { t_max, ..self }
    }

    pub fn with_c1(self, c1: Floating) -> (r: Self)
        requires
            Floating::zero_spec().lt_spec(c1),
            c1.lt_spec(self.c2),
        ensures
            r == (MoreThuente { c1, ..self }),
            self.wf() ==> r.wf(),
    {
        MoreThuente { c1, ..self }
    }

    pub fn with_c2(self, c2: Floating) -> (r: Self)
        requires
            Floating::zero_spec().lt_spec(c2),
            c2.lt_spec(Floating::one_spec()),
            self.c1.lt_spec(c2),
        ensures
            r == (MoreThuente { c2, ..self }),
            self.wf() ==> r.wf(),
    {
        MoreThuente { c2, ..self }
    }

    pub fn t_min(&self) -> (r: &Floating)
        ensures
            *r == self.t_min,
    {
        &self.t_min
    }

    pub fn t_max(&self) -> (r: &Floating)
        ensures
            *r == self.t_max,
    {
        &self.t_max
    }

    pub fn delta_min(&self) -> (r: &Floating)
        ensures
            *r == self.delta_min,
    {
        &self.delta_min
    }

    pub fn delta(&self) -> (r: &Floating)
        ensures
            *r == self.delta,
    {
        &self.delta
    }

    pub fn delta_max(&self) -> (r: &Floating)
        ensures
            *r == self.delta_max,
    {
        &self.delta_max
    }

    /// A step clamped into `[t_min, t_max]`.
    pub open spec fn clamp_step_spec(&self, t: Floating) -> Floating {
        t.max_spec(self.t_min).min_spec(self.t_max)
    }

    /// A step clamped into `[t_min, t_max]`.
    pub fn clamp_step(&self, t: Floating) -> (r: Floating)
        ensures
            r == self.clamp_step_spec(t),
    {
        t.max(self.t_min).min(self.t_max)
    }

    pub open spec fn initial_bracket_spec(&self) -> Bracket {
        Bracket {
            t: self.clamp_step_spec(Floating::one_spec()),
            tl: self.t_min,
            tu: self.t_max,
            use_modified_updating: false,
            interval_converged: false,
            trials: 0,
        }
    }

    /// The bracket a search starts from: the whole of `[t_min, t_max]`, and
    /// the unit step, clamped into it, as the first trial.
    pub fn initial_bracket(&self) -> (r: Bracket)
        ensures
            r == self.initial_bracket_spec(),
    {
        Bracket {
            t: self.clamp_step(Floating::one()),
            tl: self.t_min,
            tu: self.t_max,
            use_modified_updating: false,
            interval_converged: false,
            trials: 0,
        }
    }

    /// Whether the search returns the trial step of `bracket`, and why:
    /// `strong_wolfe` says whether the strong Wolfe conditions hold there.
    pub fn stop_reason(bracket: &Bracket, strong_wolfe: bool) -> (r: Option<StopReason>)
        ensures
            r == stop_reason_spec(*bracket, strong_wolfe),
    {
        if strong_wolfe {
            Some(StopReason::StrongWolfe)
        } else if bracket.interval_converged {
            Some(StopReason::IntervalConverged)
        } else if bracket.t.eq(bracket.tl) {
            Some(StopReason::AtLowerEnd)
        } else if bracket.t.eq(bracket.tu) {
            Some(StopReason::AtUpperEnd)
        } else {
            None
        }
    }

    /// Switches to modified updating, for good, at the first trial where the
    /// auxiliary function is not positive (`psi_t_f <= 0`) and the objective
    /// increases along the ray (`phi_t_g > 0`).
    pub fn enter_modified_updating(bracket: &mut Bracket, psi_t_f: &Floating, phi_t_g: &Floating)
        ensures
            *final(bracket) == (Bracket {
                use_modified_updating: old(bracket).use_modified_updating || (psi_t_f.le_spec(
                    Floating::zero_spec(),
                ) && Floating::zero_spec().lt_spec(*phi_t_g)),
                ..*old(bracket)
            }),
    {
        if !bracket.use_modified_updating && psi_t_f.le(Floating::zero()) && phi_t_g.gt(
            Floating::zero(),
        ) {
            bracket.use_modified_updating = true;
        }
    }

    /// The case of the trial: see [`trial_case_spec`].
    pub fn trial_case(
        f_tl: &Floating,
        f_t: &Floating,
        g_tl: &Floating,
        g_t: &Floating,
        g_product: &Floating,
    ) -> (r: TrialCase)
        ensures
            r == trial_case_spec(*f_tl, *f_t, *g_tl, *g_t, *g_product),
    {
        if f_t.gt(*f_tl) {
            TrialCase::HigherValue
        } else if g_product.lt(Floating::zero()) {
            TrialCase::OppositeSlopes
        } else if g_t.abs().le(g_tl.abs()) {
            TrialCase::SmallerSlope
        } else {
            TrialCase::LargerSlope
        }
    }

    /// The next trial where the value is higher: the cubic minimizer `tc` if
    /// it is nearer to the lower end than the quadratic minimizer, else the
    /// midpoint of the two. `offset_c` is `tc - tl`, `offset_q` is `tq - tl`
    /// and `midpoint` is `0.5 * (tq + tc)`.
    pub fn step_higher_value(
        tc: Floating,
        offset_c: Floating,
        offset_q: Floating,
        midpoint: Floating,
    ) -> (r: Floating)
        ensures
            r == if offset_c.abs_spec().lt_spec(offset_q.abs_spec()) {
                tc
            } else {
                midpoint
            },
    {
        if offset_c.abs().lt(offset_q.abs()) {
            tc
        } else {
            midpoint
        }
    }

    /// The next trial where the slopes have opposite signs: of the cubic
    /// minimizer `tc` and the secant minimizer `ts`, the one farther from the
    /// trial step. `offset_c` is `tc - t` and `offset_s` is `ts - t`.
    pub fn step_opposite_slopes(
        tc: Floating,
        ts: Floating,
        offset_c: Floating,
        offset_s: Floating,
    ) -> (r: Floating)
        ensures
            r == if offset_s.abs_spec().le_spec(offset_c.abs_spec()) {
                tc
            } else {
                ts
            },
    {
        if offset_c.abs().ge(offset_s.abs()) {
            tc
        } else {
            ts
        }
    }

    /// The next trial where the slope has the same sign and has not grown.
    pub open spec fn step_smaller_slope_spec(
        bracket: Bracket,
        tc: Floating,
        ts: Floating,
        offset_c: Floating,
        offset_s: Floating,
        limit: Floating,
    ) -> Floating {
        let nearer = if offset_c.abs_spec().lt_spec(offset_s.abs_spec()) {
            tc
        } else {
            ts
        };
        if bracket.tl.lt_spec(bracket.t) {
            nearer.min_spec(limit)
        } else {
            nearer.max_spec(limit)
        }
    }

    /// The next trial where the slope has the same sign and has not grown: of
    /// the cubic minimizer `tc` and the secant minimizer `ts`, the one nearer
    /// to the trial step, but never beyond `limit`, which is
    /// `t + delta * (tu - t)`. `offset_c` is `tc - t` and `offset_s` is
    /// `ts - t`.
    pub fn step_smaller_slope(
        bracket: &Bracket,
        tc: Floating,
        ts: Floating,
        offset_c: Floating,
        offset_s: Floating,
        limit: Floating,
    ) -> (r: Floating)
        ensures
            r == MoreThuente::step_smaller_slope_spec(*bracket, tc, ts, offset_c, offset_s, limit),
    {
        let nearer = if offset_c.abs().lt(offset_s.abs()) {
            tc
        } else {
            ts
        };
        if bracket.t.gt(bracket.tl) {
            nearer.min(limit)
        } else {
            nearer.max(limit)
        }
    }

    /// Narrows the bracket `[tl, tu]` around the trial `t`, and says whether
    /// the bracket has shrunk to a point. `slope` is the derivative at the
    /// trial times `tl - t`. See [`update_interval_spec`].
    pub fn update_interval(
        f_tl: &Floating,
        f_t: &Floating,
        slope: &Floating,
        tl: &mut Floating,
        t: Floating,
        tu: &mut Floating,
    ) -> (converged: bool)
        ensures
            (*final(tl), *final(tu), converged) == update_interval_spec(
                *f_tl,
                *f_t,
                *slope,
                *old(tl),
                t,
                *old(tu),
            ),
    {
        if f_t.gt(*f_tl) {
            *tu = t;
            false
        } else if slope.gt(Floating::zero()) {
            *tl = t;
            false
        } else if slope.lt(Floating::zero()) {
            *tu = *tl;
            *tl = t;
            false
        } else {
            true
        }
    }
}

impl SufficientDecreaseCondition for MoreThuente {
    fn c1(&self) -> (r: Floating)
        ensures
            r == self.c1,
    {
        self.c1
    }
}

impl CurvatureCondition for MoreThuente {
    fn c2(&self) -> (r: Floating)
        ensures
            r == self.c2,
    {
        self.c2
    }
}

/// With limits in order a clamped step lies between them, NaN or not, and a
/// step between them is not moved.
pub proof fn lemma_clamp_step_within_limits(search: MoreThuente, t: Floating)
    requires
        search.t_min.le_spec(search.t_max),
    ensures
        search.t_min.le_spec(search.clamp_step_spec(t)),
        search.clamp_step_spec(t).le_spec(search.t_max),
        search.t_min.le_spec(t) && t.le_spec(search.t_max) ==> search.clamp_step_spec(t) == t,
{
}

/// An update moves the ends of the bracket only onto the trial or onto each
/// other, and it reports convergence exactly when it moves nothing.
pub proof fn lemma_update_interval_keeps_ends(
    f_tl: Floating,
    f_t: Floating,
    slope: Floating,
    tl: Floating,
    t: Floating,
    tu: Floating,
)
    ensures
        ({
            let (new_tl, new_tu, converged) = update_interval_spec(f_tl, f_t, slope, tl, t, tu);
            &&& new_tl == tl || new_tl == t
            &&& new_tu == tu || new_tu == t || new_tu == tl
            &&& !converged ==> new_tl == t || new_tu == t
            &&& converged ==> new_tl == tl && new_tu == tu
            &&& converged <==> !f_tl.lt_spec(f_t) && !Floating::zero_spec().lt_spec(slope)
                && !slope.lt_spec(Floating::zero_spec())
        }),
{
}

/// The safeguard against runaway extrapolation: with the trial beyond the
/// lower end the next trial does not pass `limit`, and with the trial short
/// of the lower end the next trial does not fall short of `limit`.
pub proof fn lemma_step_smaller_slope_respects_limit(
    bracket: Bracket,
    tc: Floating,
    ts: Floating,
    offset_c: Floating,
    offset_s: Floating,
    limit: Floating,
)
    requires
        !limit.is_nan_spec(),
    ensures
        ({
            let r = MoreThuente::step_smaller_slope_spec(bracket, tc, ts, offset_c, offset_s, limit);
            &&& r == tc || r == ts || r == limit
            &&& bracket.tl.lt_spec(bracket.t) ==> r.le_spec(limit)
            &&& !bracket.tl.lt_spec(bracket.t) ==> limit.le_spec(r)
        }),
{
}

impl Bracket {
    /// Whether the trial step and both ends of the bracket lie within the
    /// limits of `search`.
    pub open spec fn within_limits(self, search: MoreThuente) -> bool {
        &&& search.t_min.le_spec(self.t) && self.t.le_spec(search.t_max)
        &&& search.t_min.le_spec(self.tl) && self.tl.le_spec(search.t_max)
        &&& search.t_min.le_spec(self.tu) && self.tu.le_spec(search.t_max)
    }
}

/// With limits in order a search never leaves them: its first bracket lies
/// within them, and a bracket within them stays there when it advances to a
/// clamped trial.
pub proof fn lemma_bracket_stays_within_limits(
    search: MoreThuente,
    bracket: Bracket,
    f_tl: Floating,
    f_t: Floating,
    slope: Floating,
    candidate: Floating,
)
    requires
        search.t_min.le_spec(search.t_max),
    ensures
        search.initial_bracket_spec().within_limits(search),
        bracket.within_limits(search) ==> bracket.advance_spec(
            f_tl,
            f_t,
            slope,
            search.clamp_step_spec(candidate),
        ).within_limits(search),
{
}

/// Once the search uses modified updating it never goes back.
pub proof fn lemma_modified_updating_is_kept(
    bracket: Bracket,
    f_tl: Floating,
    f_t: Floating,
    slope: Floating,
    t: Floating,
)
    ensures
        bracket.advance_spec(f_tl, f_t, slope, t).use_modified_updating
            == bracket.use_modified_updating,
{
}

} // verus!
