//! Descent in the norm of a preconditioner.
use vstd::prelude::*;
use crate::func_eval::{FuncEvalMultivariate, Matrix};
use crate::number::Floating;
use crate::steepest_descent::{gradient_is_small, largest_abs};

verus! {

/// The parameters of descent in the norm of a preconditioner `P`, held by
/// its inverse: the direction is the product of that inverse and the
/// gradient, with the sign flipped.
#[derive(Debug)]
pub struct PnormDescent {
    pub grad_tol: Floating,
    /// The point a run starts from.
    pub x0: Vec<Floating>,
    pub inverse_p: Matrix,
}

impl PnormDescent {
    pub fn new(grad_tol: Floating, x0: Vec<Floating>, inverse_p: Matrix) -> (r: Self)
        ensures
            r.grad_tol == grad_tol,
            r.x0 == x0,
            r.inverse_p == inverse_p,
    {
        PnormDescent { grad_tol, x0, inverse_p }
    }

    pub fn grad_tol(&self) -> (r: &Floating)
        ensures
            *r == self.grad_tol,
    {
        &self.grad_tol
    }

    pub fn x0(&self) -> (r: &Vec<Floating>)
        ensures
            *r == self.x0,
    {
        &self.x0
    }

    pub fn inverse_p(&self) -> (r: &Matrix)
        ensures
            *r == self.inverse_p,
    {
        &self.inverse_p
    }

    /// Whether the gradient is small against the tolerance.
    pub fn has_converged(&self, eval: &FuncEvalMultivariate) -> (r: bool)
        ensures
            r == gradient_is_small(eval.g@, self.grad_tol),
    {
        largest_abs(&eval.g).lt(self.grad_tol)
    }
}

} // verus!
