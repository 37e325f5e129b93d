//! The spectral projected gradient method: a gradient method in a box whose
//! step is scaled by a safeguarded Barzilai-Borwein scalar.
use vstd::prelude::*;
use crate::bounds::{projected_gradient, projected_gradient_spec, HasBounds};
use crate::func_eval::FuncEvalMultivariate;
use crate::number::{box_projection_spec, infinity_norm_spec, BoxProjection, Floating, InfinityNorm};

verus! {

/// The bit pattern of the default lower safeguard of the scalar, `1e-3`.
pub const DEFAULT_LAMBDA_MIN_BITS: u64 = 0x3F50_624D_D2F1_A9FC;

/// The bit pattern of the default upper safeguard of the scalar, `1e3`.
pub const DEFAULT_LAMBDA_MAX_BITS: u64 = 0x408F_4000_0000_0000;

/// What the method remembers: the scalar and its safeguards, beside the
/// tolerance, the start and the box.
#[derive(Debug)]
pub struct SpectralProjectedGradient {
    grad_tol: Floating,
    x0: Vec<Floating>,
    lower_bound: Vec<Floating>,
    upper_bound: Vec<Floating>,
    lambda: Floating,
    lambda_min: Floating,
    lambda_max: Floating,
}

/// A scalar held to the safeguards: lowered to `lambda_max`, then raised to
/// `lambda_min`.
pub open spec fn safeguarded(ratio: Floating, lambda_min: Floating, lambda_max: Floating) -> Floating {
    ratio.min_spec(lambda_max).max_spec(lambda_min)
}

/// The scalar after a step with corrections `s` and `y`: `sy` is their inner
/// product and `ratio` is the inner product of `s` with itself over `sy`.
/// Without curvature along the step (`sy <= 0`) the scalar goes back to
/// `lambda_max`.
pub open spec fn next_lambda(
    sy: Floating,
    ratio: Floating,
    lambda_min: Floating,
    lambda_max: Floating,
) -> Floating {
    if sy.le_spec(Floating::zero_spec()) {
        lambda_max
    } else {
        safeguarded(ratio, lambda_min, lambda_max)
    }
}

impl SpectralProjectedGradient {
    pub closed spec fn grad_tol_spec(&self) -> Floating {
        self.grad_tol
    }

    /// The point a run starts from.
    pub closed spec fn start(&self) -> Seq<Floating> {
        self.x0@
    }

    pub closed spec fn lower_spec(&self) -> Seq<Floating> {
        self.lower_bound@
    }

    pub closed spec fn upper_spec(&self) -> Seq<Floating> {
        self.upper_bound@
    }

    /// The Barzilai-Borwein scalar.
    pub closed spec fn lambda_spec(&self) -> Floating {
        self.lambda
    }

    pub closed spec fn lambda_min_spec(&self) -> Floating {
        self.lambda_min
    }

    pub closed spec fn lambda_max_spec(&self) -> Floating {
        self.lambda_max
    }

    /// The method for a run that starts at `x0` projected into the box.
    /// `inverse_norm` is one over the infinity norm of the first projected
    /// gradient step, from which the scalar starts, held to the default
    /// safeguards.
    pub fn new(
        grad_tol: Floating,
        x0: Vec<Floating>,
        inverse_norm: Floating,
        lower_bound: Vec<Floating>,
        upper_bound: Vec<Floating>,
    ) -> (r: Self)
        requires
            x0.len() == lower_bound.len(),
            x0.len() == upper_bound.len(),
        ensures
            r.grad_tol_spec() == grad_tol,
            r.start() == box_projection_spec(x0@, lower_bound@, upper_bound@),
            r.lower_spec() == lower_bound@,
            r.upper_spec() == upper_bound@,
            r.lambda_min_spec() == (Floating { bits: DEFAULT_LAMBDA_MIN_BITS }),
            r.lambda_max_spec() == (Floating { bits: DEFAULT_LAMBDA_MAX_BITS }),
            r.lambda_spec() == safeguarded(inverse_norm, r.lambda_min_spec(), r.lambda_max_spec()),
    {
        let x0 = x0.box_projection(&lower_bound, &upper_bound);
        let lambda_min = Floating::from_bits(DEFAULT_LAMBDA_MIN_BITS);
        let lambda_max = Floating::from_bits(DEFAULT_LAMBDA_MAX_BITS);
        let lambda = inverse_norm.min(lambda_max).max(lambda_min);
        SpectralProjectedGradient { grad_tol, x0, lower_bound, upper_bound, lambda, lambda_min, lambda_max }
    }

    /// The method with other safeguards; the scalar stays as it is until the
    /// next step.
    pub fn with_lambdas(self, lambda_min: Floating, lambda_max: Floating) -> (r: Self)
        ensures
            r.lambda_min_spec() == lambda_min,
            r.lambda_max_spec() == lambda_max,
            r.lambda_spec() == self.lambda_spec(),
            r.grad_tol_spec() == self.grad_tol_spec(),
            r.start() == self.start(),
            r.lower_spec() == self.lower_spec(),
            r.upper_spec() == self.upper_spec(),
    {
        SpectralProjectedGradient {
            grad_tol: self.grad_tol,
            x0: self.x0,
            lower_bound: self.lower_bound,
            upper_bound: self.upper_bound,
            lambda: self.lambda,
            lambda_min,
            lambda_max,
        }
    }

    pub fn grad_tol(&self) -> (r: &Floating)
        ensures
            *r == self.grad_tol_spec(),
    {
        &self.grad_tol
    }

    pub fn x0(&self) -> (r: &Vec<Floating>)
        ensures
            r@ == self.start(),
    {
        &self.x0
    }

    pub fn lambda(&self) -> (r: &Floating)
        ensures
            *r == self.lambda_spec(),
    {
        &self.lambda
    }

    pub fn lambda_min(&self) -> (r: &Floating)
        ensures
            *r == self.lambda_min_spec(),
    {
        &self.lambda_min
    }

    pub fn lambda_max(&self) -> (r: &Floating)
        ensures
            *r == self.lambda_max_spec(),
    {
        &self.lambda_max
    }

    /// The point `x`, projected into the box.
    pub fn project(&self, x: &Vec<Floating>) -> (r: Vec<Floating>)
        requires
            x.len() == self.lower_spec().len(),
            x.len() == self.upper_spec().len(),
        ensures
            r@ == box_projection_spec(x@, self.lower_spec(), self.upper_spec()),
    {
        x.box_projection(&self.lower_bound, &self.upper_bound)
    }

    /// The projected gradient at `x_k`, where the gradient is `g`.
    pub fn projected_gradient(&self, x_k: &Vec<Floating>, g: &Vec<Floating>) -> (r: Vec<Floating>)
        requires
            x_k.len() <= g.len(),
            x_k.len() <= self.lower_spec().len(),
            x_k.len() <= self.upper_spec().len(),
        ensures
            r@ == projected_gradient_spec(x_k@, g@, self.lower_spec(), self.upper_spec()),
    {
        projected_gradient(x_k, g, &self.lower_bound, &self.upper_bound)
    }

    pub open spec fn has_converged_spec(&self, x_k: Seq<Floating>, g: Seq<Floating>) -> bool {
        infinity_norm_spec(
            projected_gradient_spec(x_k, g, self.lower_spec(), self.upper_spec()),
        ).lt_spec(self.grad_tol_spec())
    }

    /// Whether the largest component of the projected gradient at `x_k` is
    /// smaller than the tolerance.
    pub fn has_converged(&self, x_k: &Vec<Floating>, eval: &FuncEvalMultivariate) -> (r: bool)
        requires
            x_k.len() <= eval.g.len(),
            x_k.len() <= self.lower_spec().len(),
            x_k.len() <= self.upper_spec().len(),
        ensures
            r == self.has_converged_spec(x_k@, eval.g@),
    {
        let pg = self.projected_gradient(x_k, &eval.g);
        pg.infinity_norm().lt(self.grad_tol)
    }

    /// Refreshes the scalar after a step: see [`next_lambda`].
    pub fn update_lambda(&mut self, sy: Floating, ratio: Floating)
        ensures
            final(self).lambda_spec() == next_lambda(
                sy,
                ratio,
                old(self).lambda_min_spec(),
                old(self).lambda_max_spec(),
            ),
            final(self).lambda_min_spec() == old(self).lambda_min_spec(),
            final(self).lambda_max_spec() == old(self).lambda_max_spec(),
            final(self).grad_tol_spec() == old(self).grad_tol_spec(),
            final(self).start() == old(self).start(),
            final(self).lower_spec() == old(self).lower_spec(),
            final(self).upper_spec() == old(self).upper_spec(),
    {
        if sy.le(Floating::zero()) {
            self.lambda = self.lambda_max;
        } else {
            self.lambda = ratio.min(self.lambda_max).max(self.lambda_min);
        }
    }
}

impl HasBounds for SpectralProjectedGradient {
    fn lower_bound(&self) -> (r: &Vec<Floating>)
        ensures
            r@ == self.lower_spec(),
    {
        &self.lower_bound
    }

    fn upper_bound(&self) -> (r: &Vec<Floating>)
        ensures
            r@ == self.upper_spec(),
    {
        &self.upper_bound
    }

    fn set_lower_bound(&mut self, lower_bound: Vec<Floating>)
        ensures
            final(self).lower_spec() == lower_bound@,
            final(self).upper_spec() == old(self).upper_spec(),
            final(self).grad_tol_spec() == old(self).grad_tol_spec(),
            final(self).start() == old(self).start(),
            final(self).lambda_spec() == old(self).lambda_spec(),
            final(self).lambda_min_spec() == old(self).lambda_min_spec(),
            final(self).lambda_max_spec() == old(self).lambda_max_spec(),
    {
        self.lower_bound = lower_bound;
    }

    fn set_upper_bound(&mut self, upper_bound: Vec<Floating>)
        ensures
            final(self).upper_spec() == upper_bound@,
            final(self).lower_spec() == old(self).lower_spec(),
            final(self).grad_tol_spec() == old(self).grad_tol_spec(),
            final(self).start() == old(self).start(),
            final(self).lambda_spec() == old(self).lambda_spec(),
            final(self).lambda_min_spec() == old(self).lambda_min_spec(),
            final(self).lambda_max_spec() == old(self).lambda_max_spec(),
    {
        self.upper_bound = upper_bound;
    }
}

/// With safeguards in order the scalar lies between them after every step,
/// whatever the corrections were.
pub proof fn lemma_lambda_is_safeguarded(
    sy: Floating,
    ratio: Floating,
    lambda_min: Floating,
    lambda_max: Floating,
)
    requires
        lambda_min.le_spec(lambda_max),
    ensures
        lambda_min.le_spec(next_lambda(sy, ratio, lambda_min, lambda_max)),
        next_lambda(sy, ratio, lambda_min, lambda_max).le_spec(lambda_max),
        lambda_min.le_spec(safeguarded(ratio, lambda_min, lambda_max)),
        safeguarded(ratio, lambda_min, lambda_max).le_spec(lambda_max),
{
}

} // verus!
