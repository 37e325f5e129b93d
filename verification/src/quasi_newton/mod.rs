//! The memory of the quasi-Newton methods: the approximation of the inverse
//! Hessian, the lengths of the last corrections, and the rule by which a
//! correction that is too short leaves the approximation alone.
//!
//! BFGS, DFP, Broyden and SR1 differ in the formula that refreshes the
//! approximation, which is arithmetic and so the caller's; what they remember
//! and decide is the same, and is here once for the methods without bounds
//! and once for the methods in a box.
use vstd::prelude::*;
use crate::func_eval::{identity_entries, lemma_identity_is_symmetric, FuncEvalMultivariate, Matrix};
use crate::number::{box_projection_spec, infinity_norm_spec, BoxProjection, Floating, InfinityNorm};
use crate::bounds::{projected_gradient, projected_gradient_spec, HasBounds};

verus! {

/// Whether a correction of length `norm` is too short for the tolerance
/// `tol`; before the first correction nothing is.
pub open spec fn too_close(norm: Option<Floating>, tol: Floating) -> bool {
    norm matches Some(n) && n.lt_spec(tol)
}

/// Whether the corrections `s` and `y`, of lengths `s_norm` and `y_norm`,
/// are too short to refresh the approximation with.
pub open spec fn skips_update(s_norm: Floating, y_norm: Floating, tol: Floating) -> bool {
    s_norm.lt_spec(tol) || y_norm.lt_spec(tol)
}

/// The memory of a quasi-Newton method without bounds.
#[derive(Debug)]
pub struct QuasiNewton {
    approx_inv_hessian: Matrix,
    x0: Vec<Floating>,
    tol: Floating,
    s_norm: Option<Floating>,
    y_norm: Option<Floating>,
}

pub type BFGS = QuasiNewton;

pub type DFP = QuasiNewton;

pub type Broyden = QuasiNewton;

pub type SR1 = QuasiNewton;

/// The memory of a quasi-Newton method in a box.
#[derive(Debug)]
pub struct QuasiNewtonB {
    memory: QuasiNewton,
    lower_bound: Vec<Floating>,
    upper_bound: Vec<Floating>,
}

pub type BFGSB = QuasiNewtonB;

pub type DFPB = QuasiNewtonB;

pub type BroydenB = QuasiNewtonB;

pub type SR1B = QuasiNewtonB;

impl QuasiNewton {
    /// The approximation of the inverse Hessian.
    pub closed spec fn approx_spec(&self) -> Matrix {
        self.approx_inv_hessian
    }

    /// The point a run starts from.
    pub closed spec fn start(&self) -> Seq<Floating> {
        self.x0@
    }

    pub closed spec fn tol_spec(&self) -> Floating {
        self.tol
    }

    /// The length of the last step, once there was one.
    pub closed spec fn s_norm_spec(&self) -> Option<Floating> {
        self.s_norm
    }

    /// The length of the last change of the gradient, once there was one.
    pub closed spec fn y_norm_spec(&self) -> Option<Floating> {
        self.y_norm
    }

    /// The method at the start of a run from `x0`: the approximation is the
    /// identity and no correction has been seen.
    pub fn new(tol: Floating, x0: Vec<Floating>) -> (r: Self)
        requires
            x0.len() * x0.len() <= usize::MAX,
        ensures
            r.tol_spec() == tol,
            r.start() == x0@,
            r.s_norm_spec() is None,
            r.y_norm_spec() is None,
            r.approx_spec().wf(),
            r.approx_spec().nrows_spec() == x0.len(),
            r.approx_spec().ncols_spec() == x0.len(),
            r.approx_spec().entries() == identity_entries(x0.len() as nat),
    {
        let n = x0.len();
        QuasiNewton { approx_inv_hessian: Matrix::identity(n), x0, tol, s_norm: None, y_norm: None }
    }

    pub fn approx_inv_hessian(&self) -> (r: &Matrix)
        ensures
            *r == self.approx_spec(),
    {
        &self.approx_inv_hessian
    }

    pub fn x0(&self) -> (r: &Vec<Floating>)
        ensures
            r@ == self.start(),
    {
        &self.x0
    }

    pub fn tol(&self) -> (r: &Floating)
        ensures
            *r == self.tol_spec(),
    {
        &self.tol
    }

    pub fn s_norm(&self) -> (r: &Option<Floating>)
        ensures
            *r == self.s_norm_spec(),
    {
        &self.s_norm
    }

    pub fn y_norm(&self) -> (r: &Option<Floating>)
        ensures
            *r == self.y_norm_spec(),
    {
        &self.y_norm
    }

    /// Whether the last step was shorter than the tolerance.
    pub fn next_iterate_too_close(&self) -> (r: bool)
        ensures
            r == too_close(self.s_norm_spec(), self.tol_spec()),
    {
        match self.s_norm {
            Some(s) => s.lt(self.tol),
            None => false,
        }
    }

    /// Whether the gradient changed by less than the tolerance over the last
    /// step.
    pub fn gradient_next_iterate_too_close(&self) -> (r: bool)
        ensures
            r == too_close(self.y_norm_spec(), self.tol_spec()),
    {
        match self.y_norm {
            Some(y) => y.lt(self.tol),
            None => false,
        }
    }

    pub open spec fn has_converged_spec(&self, gradient_norm: Floating) -> bool {
        ||| too_close(self.s_norm_spec(), self.tol_spec())
        ||| too_close(self.y_norm_spec(), self.tol_spec())
        ||| gradient_norm.lt_spec(self.tol_spec())
    }

    /// Whether the run is over: the last step or the last change of the
    /// gradient was too short, or the gradient, of length `gradient_norm`,
    /// is shorter than the tolerance.
    pub fn has_converged(&self, gradient_norm: &Floating) -> (r: bool)
        ensures
            r == self.has_converged_spec(*gradient_norm),
    {
        if self.next_iterate_too_close() {
            true
        } else if self.gradient_next_iterate_too_close() {
            true
        } else {
            gradient_norm.lt(self.tol)
        }
    }

    /// Takes note of the corrections of a step, of lengths `s_norm` and
    /// `y_norm`, and refreshes the approximation with `update` unless one of
    /// them is shorter than the tolerance. Where it is, `update` is not
    /// called and the approximation stays as it is, bit for bit. Returns
    /// whether the approximation was refreshed.
    pub fn update_approx_inv_hessian<F: FnOnce(&Matrix) -> Matrix>(
        &mut self,
        s_norm: Floating,
        y_norm: Floating,
        update: F,
    ) -> (refreshed: bool)
        requires
            update.requires((&old(self).approx_spec(),)),
        ensures
            refreshed == !skips_update(s_norm, y_norm, old(self).tol_spec()),
            final(self).s_norm_spec() == Some(s_norm),
            final(self).y_norm_spec() == Some(y_norm),
            final(self).tol_spec() == old(self).tol_spec(),
            final(self).start() == old(self).start(),
            !refreshed ==> final(self).approx_spec() == old(self).approx_spec(),
            refreshed ==> update.ensures((&old(self).approx_spec(),), final(self).approx_spec()),
    {
        self.s_norm = Some(s_norm);
        self.y_norm = Some(y_norm);
        if self.next_iterate_too_close() {
            return false;
        }
        if self.gradient_next_iterate_too_close() {
            return false;
        }
        let refreshed = update(&self.approx_inv_hessian);
        self.approx_inv_hessian = refreshed;
        true
    }
}

impl QuasiNewtonB {
    /// What the method remembers, as a method without bounds does.
    pub closed spec fn memory_spec(&self) -> QuasiNewton {
        self.memory
    }

    pub closed spec fn lower_spec(&self) -> Seq<Floating> {
        self.lower_bound@
    }

    pub closed spec fn upper_spec(&self) -> Seq<Floating> {
        self.upper_bound@
    }

    /// The method at the start of a run from `x0` projected into the box:
    /// the approximation is the identity and no correction has been seen.
    pub fn new(tol: Floating, x0: Vec<Floating>, lower_bound: Vec<Floating>, upper_bound: Vec<Floating>) -> (r:
        Self)
        requires
            x0.len() * x0.len() <= usize::MAX,
            x0.len() == lower_bound.len(),
            x0.len() == upper_bound.len(),
        ensures
            r.lower_spec() == lower_bound@,
            r.upper_spec() == upper_bound@,
            r.memory_spec().tol_spec() == tol,
            r.memory_spec().start() == box_projection_spec(x0@, lower_bound@, upper_bound@),
            r.memory_spec().s_norm_spec() is None,
            r.memory_spec().y_norm_spec() is None,
            r.memory_spec().approx_spec().wf(),
            r.memory_spec().approx_spec().nrows_spec() == x0.len(),
            r.memory_spec().approx_spec().ncols_spec() == x0.len(),
            r.memory_spec().approx_spec().entries() == identity_entries(x0.len() as nat),
    {
        let projected = x0.box_projection(&lower_bound, &upper_bound);
        QuasiNewtonB { memory: QuasiNewton::new(tol, projected), lower_bound, upper_bound }
    }

    pub fn memory(&self) -> (r: &QuasiNewton)
        ensures
            *r == self.memory_spec(),
    {
        &self.memory
    }

    pub fn approx_inv_hessian(&self) -> (r: &Matrix)
        ensures
            *r == self.memory_spec().approx_spec(),
    {
        self.memory.approx_inv_hessian()
    }

    pub fn x0(&self) -> (r: &Vec<Floating>)
        ensures
            r@ == self.memory_spec().start(),
    {
        self.memory.x0()
    }

    pub fn tol(&self) -> (r: &Floating)
        ensures
            *r == self.memory_spec().tol_spec(),
    {
        self.memory.tol()
    }

    pub fn s_norm(&self) -> (r: &Option<Floating>)
        ensures
            *r == self.memory_spec().s_norm_spec(),
    {
        self.memory.s_norm()
    }

    pub fn y_norm(&self) -> (r: &Option<Floating>)
        ensures
            *r == self.memory_spec().y_norm_spec(),
    {
        self.memory.y_norm()
    }

    /// Whether the last step was shorter than the tolerance.
    pub fn next_iterate_too_close(&self) -> (r: bool)
        ensures
            r == too_close(self.memory_spec().s_norm_spec(), self.memory_spec().tol_spec()),
    {
        self.memory.next_iterate_too_close()
    }

    /// Whether the gradient changed by less than the tolerance over the last
    /// step.
    pub fn gradient_next_iterate_too_close(&self) -> (r: bool)
        ensures
            r == too_close(self.memory_spec().y_norm_spec(), self.memory_spec().tol_spec()),
    {
        self.memory.gradient_next_iterate_too_close()
    }

    /// The point `x`, projected into the box.
    pub fn project(&self, x: &Vec<Floating>) -> (r: Vec<Floating>)
        requires
            x.len() == self.lower_spec().len(),
            x.len() == self.upper_spec().len(),
        ensures
            r@ == box_projection_spec(x@, self.lower_spec(), self.upper_spec()),
    {
        x.box_projection(&self.lower_bound, &self.upper_bound)
    }

    /// The projected gradient at `x_k`, where the gradient is `g`.
    pub fn projected_gradient(&self, x_k: &Vec<Floating>, g: &Vec<Floating>) -> (r: Vec<Floating>)
        requires
            x_k.len() <= g.len(),
            x_k.len() <= self.lower_spec().len(),
            x_k.len() <= self.upper_spec().len(),
        ensures
            r@ == projected_gradient_spec(x_k@, g@, self.lower_spec(), self.upper_spec()),
    {
        projected_gradient(x_k, g, &self.lower_bound, &self.upper_bound)
    }

    pub open spec fn has_converged_spec(&self, x_k: Seq<Floating>, g: Seq<Floating>) -> bool {
        ||| too_close(self.memory_spec().s_norm_spec(), self.memory_spec().tol_spec())
        ||| too_close(self.memory_spec().y_norm_spec(), self.memory_spec().tol_spec())
        ||| infinity_norm_spec(
            projected_gradient_spec(x_k, g, self.lower_spec(), self.upper_spec()),
        ).lt_spec(self.memory_spec().tol_spec())
    }

    /// Whether the run is over at `x_k`: the last step or the last change of
    /// the gradient was too short, or the largest component of the projected
    /// gradient is smaller than the tolerance.
    pub fn has_converged(&self, x_k: &Vec<Floating>, eval: &FuncEvalMultivariate) -> (r: bool)
        requires
            x_k.len() <= eval.g.len(),
            x_k.len() <= self.lower_spec().len(),
            x_k.len() <= self.upper_spec().len(),
        ensures
            r == self.has_converged_spec(x_k@, eval.g@),
    {
        if self.memory.next_iterate_too_close() {
            true
        } else if self.memory.gradient_next_iterate_too_close() {
            true
        } else {
            let pg = self.projected_gradient(x_k, &eval.g);
            pg.infinity_norm().lt(*self.memory.tol())
        }
    }

    /// Takes note of the corrections of a step and refreshes the
    /// approximation with `update`, unless one of them is shorter than the
    /// tolerance: see [`QuasiNewton::update_approx_inv_hessian`].
    pub fn update_approx_inv_hessian<F: FnOnce(&Matrix) -> Matrix>(
        &mut self,
        s_norm: Floating,
        y_norm: Floating,
        update: F,
    ) -> (refreshed: bool)
        requires
            update.requires((&old(self).memory_spec().approx_spec(),)),
        ensures
            refreshed == !skips_update(s_norm, y_norm, old(self).memory_spec().tol_spec()),
            final(self).memory_spec().s_norm_spec() == Some(s_norm),
            final(self).memory_spec().y_norm_spec() == Some(y_norm),
            final(self).memory_spec().tol_spec() == old(self).memory_spec().tol_spec(),
            final(self).memory_spec().start() == old(self).memory_spec().start(),
            final(self).lower_spec() == old(self).lower_spec(),
            final(self).upper_spec() == old(self).upper_spec(),
            !refreshed ==> final(self).memory_spec().approx_spec() == old(
                self,
            ).memory_spec().approx_spec(),
            refreshed ==> update.ensures(
                (&old(self).memory_spec().approx_spec(),),
                final(self).memory_spec().approx_spec(),
            ),
    {
        self.memory.update_approx_inv_hessian(s_norm, y_norm, update)
    }
}

impl HasBounds for QuasiNewtonB {
    fn lower_bound(&self) -> (r: &Vec<Floating>)
        ensures
            r@ == self.lower_spec(),
    {
        &self.lower_bound
    }

    fn upper_bound(&self) -> (r: &Vec<Floating>)
        ensures
            r@ == self.upper_spec(),
    {
        &self.upper_bound
    }

    fn set_lower_bound(&mut self, lower_bound: Vec<Floating>)
        ensures
            final(self).lower_spec() == lower_bound@,
            final(self).upper_spec() == old(self).upper_spec(),
            final(self).memory_spec() == old(self).memory_spec(),
    {
        self.lower_bound = lower_bound;
    }

    fn set_upper_bound(&mut self, upper_bound: Vec<Floating>)
        ensures
            final(self).upper_spec() == upper_bound@,
            final(self).lower_spec() == old(self).lower_spec(),
            final(self).memory_spec() == old(self).memory_spec(),
    {
        self.upper_bound = upper_bound;
    }
}

/// A method starts from a symmetric approximation.
pub proof fn lemma_approximation_starts_symmetric(memory: QuasiNewton, n: nat)
    requires
        memory.approx_spec().nrows_spec() == n,
        memory.approx_spec().ncols_spec() == n,
        memory.approx_spec().entries() == identity_entries(n),
    ensures
        memory.approx_spec().is_symmetric(),
{
    lemma_identity_is_symmetric(memory.approx_spec(), n);
}

/// A step shorter than the tolerance leaves the approximation of the inverse
/// Hessian as it was, whatever the change of the gradient, and so does a
/// change of the gradient shorter than the tolerance.
pub proof fn lemma_short_step_skips_update(s_norm: Floating, y_norm: Floating, tol: Floating)
    ensures
        s_norm.lt_spec(tol) ==> skips_update(s_norm, y_norm, tol),
        y_norm.lt_spec(tol) ==> skips_update(s_norm, y_norm, tol),
        skips_update(s_norm, y_norm, tol) <==> too_close(Some(s_norm), tol) || too_close(
            Some(y_norm),
            tol,
        ),
{
}

} // verus!
