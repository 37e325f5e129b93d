//! Box constraints: the bounds of a method, the projected gradient that
//! measures optimality in a box, and the methods whose only memory is the box.
use vstd::prelude::*;
use crate::func_eval::FuncEvalMultivariate;
use crate::number::{box_projection_spec, infinity_norm_spec, BoxProjection, Floating, InfinityNorm};

verus! {

/// Read and write access to the box of a bound-aware method or line search.
pub trait HasBounds {
    fn lower_bound(&self) -> &Vec<Floating>;

    fn upper_bound(&self) -> &Vec<Floating>;

    fn set_lower_bound(&mut self, lower_bound: Vec<Floating>);

    fn set_upper_bound(&mut self, upper_bound: Vec<Floating>);
}

/// One component of the projected gradient: zero where the iterate sits on a
/// bound and the gradient pushes against it, the gradient elsewhere.
pub open spec fn projected_component(
    x: Floating,
    g: Floating,
    lower: Floating,
    upper: Floating,
) -> Floating {
    if (x.eq_value(lower) && Floating::zero_spec().lt_spec(g)) || (x.eq_value(upper) && g.lt_spec(
        Floating::zero_spec(),
    )) {
        Floating::zero_spec()
    } else {
        g
    }
}

/// The gradient `g` at the iterate `x` of a problem in the box `[lower,
/// upper]`, with every component cleared that only pushes against an active
/// bound. Components of `g` beyond the dimension of `x` are kept.
pub open spec fn projected_gradient_spec(
    x: Seq<Floating>,
    g: Seq<Floating>,
    lower: Seq<Floating>,
    upper: Seq<Floating>,
) -> Seq<Floating> {
    Seq::new(
        g.len(),
        |i: int|
            if i < x.len() {
                projected_component(x[i], g[i], lower[i], upper[i])
            } else {
                g[i]
            },
    )
}

/// The projected gradient at `x_k`: the measure of optimality of a
/// box-constrained problem.
pub fn projected_gradient(
    x_k: &Vec<Floating>,
    g: &Vec<Floating>,
    lower_bound: &Vec<Floating>,
    upper_bound: &Vec<Floating>,
) -> (r: Vec<Floating>)
    requires
        x_k.len() <= g.len(),
        x_k.len() <= lower_bound.len(),
        x_k.len() <= upper_bound.len(),
    ensures
        r@ == projected_gradient_spec(x_k@, g@, lower_bound@, upper_bound@),
{
    let n = g.len();
    let mut out: Vec<Floating> = Vec::with_capacity(n);
    let mut i: usize = 0;
    while i < n
        invariant
            n == g.len(),
            x_k.len() <= g.len(),
            x_k.len() <= lower_bound.len(),
            x_k.len() <= upper_bound.len(),
            i <= n,
            out.len() == i,
            forall|j: int|
                0 <= j < i ==> out[j] == projected_gradient_spec(
                    x_k@,
                    g@,
                    lower_bound@,
                    upper_bound@,
                )[j],
        decreases n - i,
    {
        let gi = g[i];
        let active = if i < x_k.len() {
            (x_k[i].eq(lower_bound[i]) && gi.gt(Floating::zero())) || (x_k[i].eq(upper_bound[i])
                && gi.lt(Floating::zero()))
        } else {
            false
        };
        out.push(
            if active {
                Floating::zero()
            } else {
                gi
            },
        );
        i += 1;
    }
    assert(out@ =~= projected_gradient_spec(x_k@, g@, lower_bound@, upper_bound@));
    out
}

/// The projected gradient of whatever has bounds.
pub trait HasProjectedGradient: HasBounds {
    /// The projected gradient at `x_k`, of the evaluation `eval` there, in
    /// the box that the bounds of `self` span.
    fn projected_gradient(&self, x_k: &Vec<Floating>, eval: &FuncEvalMultivariate) -> (r: Vec<
        Floating,
    >)
        requires
            x_k.len() <= eval.g.len(),
            forall|lower: &Vec<Floating>| #[trigger]
                call_ensures(Self::lower_bound, (self,), lower) ==> x_k.len() <= lower.len(),
            forall|upper: &Vec<Floating>| #[trigger]
                call_ensures(Self::upper_bound, (self,), upper) ==> x_k.len() <= upper.len(),
        ensures
            exists|lower: &Vec<Floating>, upper: &Vec<Floating>|
                {
                    &&& #[trigger] call_ensures(Self::lower_bound, (self,), lower)
                    &&& #[trigger] call_ensures(Self::upper_bound, (self,), upper)
                    &&& r@ == projected_gradient_spec(x_k@, eval.g@, lower@, upper@)
                },
    {
        let lower = self.lower_bound();
        let upper = self.upper_bound();
        self::projected_gradient(x_k, &eval.g, lower, upper)
    }
}

impl<T: HasBounds> HasProjectedGradient for T {

}

/// Strictly inside the box the projected gradient is the gradient, and
/// everywhere each of its components is the gradient's or positive zero.
pub proof fn lemma_projected_gradient_components(
    x: Seq<Floating>,
    g: Seq<Floating>,
    lower: Seq<Floating>,
    upper: Seq<Floating>,
    i: int,
)
    requires
        0 <= i < g.len(),
    ensures
        projected_gradient_spec(x, g, lower, upper)[i] == g[i] || projected_gradient_spec(
            x,
            g,
            lower,
            upper,
        )[i] == Floating::zero_spec(),
        i < x.len() && lower[i].lt_spec(x[i]) && x[i].lt_spec(upper[i]) ==> projected_gradient_spec(
            x,
            g,
            lower,
            upper,
        )[i] == g[i],
        projected_gradient_spec(x, g, lower, upper)[i].abs_spec().key() <= g[i].abs_spec().key(),
{
}

/// The parameters of a first- or second-order method in a box whose only
/// memory is the box: the tolerance, the start and the bounds.
#[derive(Debug)]
pub struct BoxedMethod {
    grad_tol: Floating,
    x0: Vec<Floating>,
    lower_bound: Vec<Floating>,
    upper_bound: Vec<Floating>,
}

impl BoxedMethod {
    pub closed spec fn grad_tol_spec(&self) -> Floating {
        self.grad_tol
    }

    /// The point a run starts from.
    pub closed spec fn start(&self) -> Seq<Floating> {
        self.x0@
    }

    pub closed spec fn lower_spec(&self) -> Seq<Floating> {
        self.lower_bound@
    }

    pub closed spec fn upper_spec(&self) -> Seq<Floating> {
        self.upper_bound@
    }

    /// The method for a run that starts at `x0` projected into the box.
    pub fn new(
        grad_tol: Floating,
        x0: Vec<Floating>,
        lower_bound: Vec<Floating>,
        upper_bound: Vec<Floating>,
    ) -> (r: Self)
        requires
            x0.len() == lower_bound.len(),
            x0.len() == upper_bound.len(),
        ensures
            r.grad_tol_spec() == grad_tol,
            r.start() == box_projection_spec(x0@, lower_bound@, upper_bound@),
            r.lower_spec() == lower_bound@,
            r.upper_spec() == upper_bound@,
    {
        let x0 = x0.box_projection(&lower_bound, &upper_bound);
        BoxedMethod { grad_tol, x0, lower_bound, upper_bound }
    }

    pub fn grad_tol(&self) -> (r: &Floating)
        ensures
            *r == self.grad_tol_spec(),
    {
        &self.grad_tol
    }

    pub fn x0(&self) -> (r: &Vec<Floating>)
        ensures
            r@ == self.start(),
    {
        &self.x0
    }

    /// The point `x`, projected into the box.
    pub fn project(&self, x: &Vec<Floating>) -> (r: Vec<Floating>)
        requires
            x.len() == self.lower_spec().len(),
            x.len() == self.upper_spec().len(),
        ensures
            r@ == box_projection_spec(x@, self.lower_spec(), self.upper_spec()),
    {
        x.box_projection(&self.lower_bound, &self.upper_bound)
    }

    /// The projected gradient at `x_k`, where the gradient is `g`.
    pub fn projected_gradient(&self, x_k: &Vec<Floating>, g: &Vec<Floating>) -> (r: Vec<Floating>)
        requires
            x_k.len() <= g.len(),
            x_k.len() <= self.lower_spec().len(),
            x_k.len() <= self.upper_spec().len(),
        ensures
            r@ == projected_gradient_spec(x_k@, g@, self.lower_spec(), self.upper_spec()),
    {
        projected_gradient(x_k, g, &self.lower_bound, &self.upper_bound)
    }

    pub open spec fn has_converged_spec(&self, x_k: Seq<Floating>, g: Seq<Floating>) -> bool {
        infinity_norm_spec(
            projected_gradient_spec(x_k, g, self.lower_spec(), self.upper_spec()),
        ).lt_spec(self.grad_tol_spec())
    }

    /// Whether the largest component of the projected gradient at `x_k` is
    /// smaller than the tolerance.
    pub fn has_converged(&self, x_k: &Vec<Floating>, eval: &FuncEvalMultivariate) -> (r: bool)
        requires
            x_k.len() <= eval.g.len(),
            x_k.len() <= self.lower_spec().len(),
            x_k.len() <= self.upper_spec().len(),
        ensures
            r == self.has_converged_spec(x_k@, eval.g@),
    {
        let pg = self.projected_gradient(x_k, &eval.g);
        pg.infinity_norm().lt(self.grad_tol)
    }
}

impl HasBounds for BoxedMethod {
    fn lower_bound(&self) -> (r: &Vec<Floating>)
        ensures
            r@ == self.lower_spec(),
    {
        &self.lower_bound
    }

    fn upper_bound(&self) -> (r: &Vec<Floating>)
        ensures
            r@ == self.upper_spec(),
    {
        &self.upper_bound
    }

    fn set_lower_bound(&mut self, lower_bound: Vec<Floating>)
        ensures
            final(self).lower_spec() == lower_bound@,
            final(self).upper_spec() == old(self).upper_spec(),
            final(self).start() == old(self).start(),
            final(self).grad_tol_spec() == old(self).grad_tol_spec(),
    {
        self.lower_bound = lower_bound;
    }

    fn set_upper_bound(&mut self, upper_bound: Vec<Floating>)
        ensures
            final(self).upper_spec() == upper_bound@,
            final(self).lower_spec() == old(self).lower_spec(),
            final(self).start() == old(self).start(),
            final(self).grad_tol_spec() == old(self).grad_tol_spec(),
    {
        self.upper_bound = upper_bound;
    }
}

} // verus!
