//! The first-order methods: what they share, and one module for each.
use vstd::prelude::*;
use crate::func_eval::FuncEvalMultivariate;
use crate::bounds::projected_gradient_spec;
use crate::number::{box_projection_spec, infinity_norm_spec, BoxProjection, Floating, InfinityNorm};
use crate::optimization_solver::{ComputeDirection, SolverError};

pub mod coordinate_descent;
pub mod gradient_descent;
pub mod pnorm_descent;
pub mod projected_gradient_descent;
pub mod spg;

verus! {

/// The largest absolute value in `g`, NaN ignored, and negative infinity for
/// a vector without any number in it: the measure of stationarity of the
/// methods without bounds.
pub open spec fn largest_abs_spec(g: Seq<Floating>) -> Floating
    decreases g.len(),
{
    if g.len() == 0 {
        Floating::neg_infinity_spec()
    } else {
        g.last().abs_spec().max_spec(largest_abs_spec(g.drop_last()))
    }
}

/// The largest absolute value in `g`: see [`largest_abs_spec`].
pub fn largest_abs(g: &Vec<Floating>) -> (r: Floating)
    ensures
        r == largest_abs_spec(g@),
{
    let n = g.len();
    let mut acc = Floating::neg_infinity();
    let mut i: usize = 0;
    while i < n
        invariant
            n == g.len(),
            i <= n,
            acc == largest_abs_spec(g@.take(i as int)),
        decreases n - i,
    {
        assert(g@.take(i + 1).drop_last() == g@.take(i as int));
        acc = g[i].abs().max(acc);
        i += 1;
    }
    assert(g@.take(n as int) == g@);
    acc
}

/// Whether no component of `g` is as large as `grad_tol` in absolute value,
/// NaN components aside.
pub open spec fn gradient_is_small(g: Seq<Floating>, grad_tol: Floating) -> bool {
    largest_abs_spec(g).lt_spec(grad_tol)
}

/// The measure bounds the absolute value of every component that is a
/// number, so a gradient is small exactly when the tolerance is a number
/// above negative infinity and every such component is below it in absolute
/// value.
pub proof fn lemma_gradient_is_small(g: Seq<Floating>, grad_tol: Floating)
    ensures
        !largest_abs_spec(g).is_nan_spec(),
        forall|i: int|
            0 <= i < g.len() && !g[i].is_nan_spec() ==> g[i].abs_spec().le_spec(largest_abs_spec(g)),
        gradient_is_small(g, grad_tol) <==> Floating::neg_infinity_spec().lt_spec(grad_tol)
            && forall|i: int|
            0 <= i < g.len() && !g[i].is_nan_spec() ==> g[i].abs_spec().lt_spec(grad_tol),
    decreases g.len(),
{
    if g.len() > 0 {
        let init = g.drop_last();
        lemma_gradient_is_small(init, grad_tol);
        assert forall|i: int| 0 <= i < g.len() && !g[i].is_nan_spec() implies g[i].abs_spec().le_spec(
            largest_abs_spec(g),
        ) by {
            if i < g.len() - 1 {
                assert(init[i] == g[i]);
            }
        }
        if gradient_is_small(g, grad_tol) {
            assert forall|i: int| 0 <= i < g.len() && !g[i].is_nan_spec() implies g[i].abs_spec().lt_spec(
                grad_tol,
            ) by {
                assert(g[i].abs_spec().le_spec(largest_abs_spec(g)));
            }
        }
        if Floating::neg_infinity_spec().lt_spec(grad_tol) && forall|i: int|
            0 <= i < g.len() && !g[i].is_nan_spec() ==> g[i].abs_spec().lt_spec(grad_tol) {
            assert forall|i: int| 0 <= i < init.len() && !init[i].is_nan_spec() implies init[i].abs_spec().lt_spec(
                grad_tol,
            ) by {
                assert(init[i] == g[i]);
            }
            assert(gradient_is_small(init, grad_tol));
            assert(g.last() == g[g.len() - 1]);
        }
    }
}

/// The point `x` raised to `lower` component by component.
pub open spec fn raised_to(x: Seq<Floating>, lower: Seq<Floating>) -> Seq<Floating> {
    Seq::new(x.len(), |i: int| if lower[i].le_spec(x[i]) { x[i] } else { lower[i] })
}

/// The point `x` lowered to `upper` component by component.
pub open spec fn lowered_to(x: Seq<Floating>, upper: Seq<Floating>) -> Seq<Floating> {
    Seq::new(x.len(), |i: int| if x[i].le_spec(upper[i]) { x[i] } else { upper[i] })
}

/// The point `x` held to the bounds that are there.
pub open spec fn held_to(
    x: Seq<Floating>,
    lower: Option<Seq<Floating>>,
    upper: Option<Seq<Floating>>,
) -> Seq<Floating> {
    match (lower, upper) {
        (Some(l), Some(u)) => box_projection_spec(x, l, u),
        (Some(l), None) => raised_to(x, l),
        (None, Some(u)) => lowered_to(x, u),
        (None, None) => x,
    }
}

/// The gradient `g` at the iterate `x`, with every component cleared that
/// only pushes against a bound that is there and active: zero where the
/// iterate sits on the lower bound and the gradient is positive, or on the
/// upper bound and the gradient is negative. Components of `g` beyond the
/// dimension of `x` are kept.
pub open spec fn held_gradient(
    x: Seq<Floating>,
    g: Seq<Floating>,
    lower: Option<Seq<Floating>>,
    upper: Option<Seq<Floating>>,
) -> Seq<Floating> {
    Seq::new(
        g.len(),
        |i: int|
            if i < x.len() && ((lower matches Some(l) && x[i].eq_value(l[i])
                && Floating::zero_spec().lt_spec(g[i])) || (upper matches Some(u) && x[i].eq_value(
                u[i],
            ) && g[i].lt_spec(Floating::zero_spec()))) {
                Floating::zero_spec()
            } else {
                g[i]
            },
    )
}

/// A first-order method around a direction strategy, with a lower bound, an
/// upper bound, both or neither.
#[derive(Debug)]
pub struct SteepestDescent<S> {
    pub grad_tol: Floating,
    pub x0: Vec<Floating>,
    pub direction_strategy: S,
    pub lower_bound: Option<Vec<Floating>>,
    pub upper_bound: Option<Vec<Floating>>,
}

impl<S> SteepestDescent<S> {
    pub open spec fn lower_spec(&self) -> Option<Seq<Floating>> {
        match self.lower_bound {
            Some(l) => Some(l@),
            None => None,
        }
    }

    pub open spec fn upper_spec(&self) -> Option<Seq<Floating>> {
        match self.upper_bound {
            Some(u) => Some(u@),
            None => None,
        }
    }

    /// The method without bounds.
    pub fn new(grad_tol: Floating, x0: Vec<Floating>, direction_strategy: S) -> (r: Self)
        ensures
            r.grad_tol == grad_tol,
            r.x0 == x0,
            r.direction_strategy == direction_strategy,
            r.lower_bound is None,
            r.upper_bound is None,
    {
        SteepestDescent {
            grad_tol,
            x0,
            direction_strategy,
            lower_bound: None,
            upper_bound: None,
        }
    }

    pub fn with_upper_bound(self, upper_bound: Vec<Floating>) -> (r: Self)
        ensures
            r == (SteepestDescent { upper_bound: Some(upper_bound), ..self }),
    {
        SteepestDescent { upper_bound: Some(upper_bound), ..self }
    }

    pub fn with_lower_bound(self, lower_bound: Vec<Floating>) -> (r: Self)
        ensures
            r == (SteepestDescent { lower_bound: Some(lower_bound), ..self }),
    {
        SteepestDescent { lower_bound: Some(lower_bound), ..self }
    }

    /// Whether a bound is there to apply to the next iterate.
    pub fn is_bounded(&self) -> (r: bool)
        ensures
            r == (self.lower_bound is Some || self.upper_bound is Some),
    {
        self.lower_bound.is_some() || self.upper_bound.is_some()
    }

    /// The candidate `next_iterate`, held to the bounds that are there.
    pub fn project_next_iterate(&self, next_iterate: Vec<Floating>) -> (r: Vec<Floating>)
        requires
            self.lower_bound matches Some(l) ==> l.len() == next_iterate.len(),
            self.upper_bound matches Some(u) ==> u.len() == next_iterate.len(),
        ensures
            r@ == held_to(next_iterate@, self.lower_spec(), self.upper_spec()),
    {
        match (&self.lower_bound, &self.upper_bound) {
            (Some(lower), Some(upper)) => next_iterate.box_projection(lower, upper),
            (Some(lower), None) => {
                let n = next_iterate.len();
                let mut out: Vec<Floating> = Vec::with_capacity(n);
                let mut i: usize = 0;
                while i < n
                    invariant
                        n == next_iterate.len(),
                        n == lower.len(),
                        i <= n,
                        out.len() == i,
                        forall|j: int| 0 <= j < i ==> out[j] == raised_to(next_iterate@, lower@)[j],
                    decreases n - i,
                {
                    out.push(if lower[i].le(next_iterate[i]) { next_iterate[i] } else { lower[i] });
                    i += 1;
                }
                assert(out@ =~= raised_to(next_iterate@, lower@));
                out
            },
            (None, Some(upper)) => {
                let n = next_iterate.len();
                let mut out: Vec<Floating> = Vec::with_capacity(n);
                let mut i: usize = 0;
                while i < n
                    invariant
                        n == next_iterate.len(),
                        n == upper.len(),
                        i <= n,
                        out.len() == i,
                        forall|j: int| 0 <= j < i ==> out[j] == lowered_to(next_iterate@, upper@)[j],
                    decreases n - i,
                {
                    out.push(if next_iterate[i].le(upper[i]) { next_iterate[i] } else { upper[i] });
                    i += 1;
                }
                assert(out@ =~= lowered_to(next_iterate@, upper@));
                out
            },
            (None, None) => next_iterate,
        }
    }

    /// The projected gradient at `x_k`, where the gradient is `g`, for the
    /// bounds that are there: see [`held_gradient`].
    pub fn projected_gradient(&self, x_k: &Vec<Floating>, g: &Vec<Floating>) -> (r: Vec<Floating>)
        requires
            x_k.len() <= g.len(),
            self.lower_bound matches Some(l) ==> x_k.len() <= l.len(),
            self.upper_bound matches Some(u) ==> x_k.len() <= u.len(),
        ensures
            r@ == held_gradient(x_k@, g@, self.lower_spec(), self.upper_spec()),
    {
        let n = g.len();
        let mut out: Vec<Floating> = Vec::with_capacity(n);
        let mut i: usize = 0;
        while i < n
            invariant
                n == g.len(),
                x_k.len() <= g.len(),
                self.lower_bound matches Some(l) ==> x_k.len() <= l.len(),
                self.upper_bound matches Some(u) ==> x_k.len() <= u.len(),
                i <= n,
                out.len() == i,
                forall|j: int|
                    0 <= j < i ==> out[j] == held_gradient(
                        x_k@,
                        g@,
                        self.lower_spec(),
                        self.upper_spec(),
                    )[j],
            decreases n - i,
        {
            let gi = g[i];
            let mut active = false;
            if i < x_k.len() {
                let xi = x_k[i];
                let at_lower = match &self.lower_bound {
                    Some(lower) => xi.eq(lower[i]) && gi.gt(Floating::zero()),
                    None => false,
                };
                let at_upper = match &self.upper_bound {
                    Some(upper) => xi.eq(upper[i]) && gi.lt(Floating::zero()),
                    None => false,
                };
                active = at_lower || at_upper;
            }
            out.push(
                if active {
                    Floating::zero()
                } else {
                    gi
                },
            );
            i += 1;
        }
        assert(out@ =~= held_gradient(x_k@, g@, self.lower_spec(), self.upper_spec()));
        out
    }

    /// Whether the run is over at `x_k`, where the gradient is `g`: with a
    /// bound, the largest component of the projected gradient is smaller
    /// than the tolerance; without one, the gradient is small against it.
    pub open spec fn has_converged_spec(&self, x_k: Seq<Floating>, g: Seq<Floating>) -> bool {
        if self.lower_bound is Some || self.upper_bound is Some {
            infinity_norm_spec(held_gradient(x_k, g, self.lower_spec(), self.upper_spec())).lt_spec(
                self.grad_tol,
            )
        } else {
            gradient_is_small(g, self.grad_tol)
        }
    }

    /// Whether the run is over at `x_k`: see
    /// [`SteepestDescent::has_converged_spec`].
    pub fn has_converged(&self, x_k: &Vec<Floating>, eval: &FuncEvalMultivariate) -> (r: bool)
        requires
            x_k.len() <= eval.g.len(),
            self.lower_bound matches Some(l) ==> x_k.len() <= l.len(),
            self.upper_bound matches Some(u) ==> x_k.len() <= u.len(),
        ensures
            r == self.has_converged_spec(x_k@, eval.g@),
    {
        if self.is_bounded() {
            let pg = self.projected_gradient(x_k, &eval.g);
            pg.infinity_norm().lt(self.grad_tol)
        } else {
            largest_abs(&eval.g).lt(self.grad_tol)
        }
    }
}

impl<S: ComputeDirection> ComputeDirection for SteepestDescent<S> {
    /// The direction of the strategy: the result, and the strategy
    /// afterwards, are what the strategy's own `compute_direction` gives for
    /// the strategy as it was, `x_k` and `eval`. Nothing else of the method
    /// changes.
    fn compute_direction(&mut self, x_k: &Vec<Floating>, eval: &FuncEvalMultivariate) -> (r: Result<
        Vec<Floating>,
        SolverError,
    >)
        ensures
            final(self).grad_tol == old(self).grad_tol,
            final(self).x0 == old(self).x0,
            final(self).lower_bound == old(self).lower_bound,
            final(self).upper_bound == old(self).upper_bound,
            exists|strategy: &mut S|
                mut_ref_current(strategy) == old(self).direction_strategy && mut_ref_future(strategy)
                    == final(self).direction_strategy && #[trigger] call_ensures(
                    S::compute_direction,
                    (strategy, x_k, eval),
                    r,
                ),
    {
        self.direction_strategy.compute_direction(x_k, eval)
    }
}

/// Holding a point to the lower bound and then to the upper bound is
/// projecting it into the box.
pub proof fn lemma_held_to_both_bounds(x: Seq<Floating>, lower: Seq<Floating>, upper: Seq<Floating>)
    requires
        x.len() == lower.len(),
        x.len() == upper.len(),
    ensures
        lowered_to(raised_to(x, lower), upper) == box_projection_spec(x, lower, upper),
{
    assert(lowered_to(raised_to(x, lower), upper) =~= box_projection_spec(x, lower, upper));
}

/// With both bounds there the projected gradient is that of the box, and
/// with none it is the gradient.
pub proof fn lemma_held_gradient(x: Seq<Floating>, g: Seq<Floating>, lower: Seq<Floating>, upper: Seq<Floating>)
    ensures
        held_gradient(x, g, Some(lower), Some(upper)) == projected_gradient_spec(x, g, lower, upper),
        held_gradient(x, g, None, None) == g,
{
    assert(held_gradient(x, g, Some(lower), Some(upper)) =~= projected_gradient_spec(
        x,
        g,
        lower,
        upper,
    ));
    assert(held_gradient(x, g, None, None) =~= g);
}

} // verus!
