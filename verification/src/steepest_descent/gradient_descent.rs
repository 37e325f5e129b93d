//! Gradient descent: against the gradient.
use vstd::prelude::*;
use crate::func_eval::FuncEvalMultivariate;
use crate::newton::{negate, negated};
use crate::number::Floating;
use crate::optimization_solver::{ComputeDirection, SolverError};
use crate::steepest_descent::{gradient_is_small, largest_abs};

verus! {

/// The parameters of gradient descent.
#[derive(Debug)]
pub struct GradientDescent {
    pub grad_tol: Floating,
    /// The point a run starts from.
    pub x0: Vec<Floating>,
}

impl GradientDescent {
    pub fn new(grad_tol: Floating, x0: Vec<Floating>) -> (r: Self)
        ensures
            r.grad_tol == grad_tol,
            r.x0 == x0,
    {
        GradientDescent { grad_tol, x0 }
    }

    pub fn grad_tol(&self) -> (r: &Floating)
        ensures
            *r == self.grad_tol,
    {
        &self.grad_tol
    }

    pub fn x0(&self) -> (r: &Vec<Floating>)
        ensures
            *r == self.x0,
    {
        &self.x0
    }

    /// Whether the gradient is small against the tolerance.
    pub fn has_converged(&self, eval: &FuncEvalMultivariate) -> (r: bool)
        ensures
            r == gradient_is_small(eval.g@, self.grad_tol),
    {
        largest_abs(&eval.g).lt(self.grad_tol)
    }
}

impl ComputeDirection for GradientDescent {
    /// The gradient with its sign flipped.
    fn compute_direction(&mut self, x_k: &Vec<Floating>, eval: &FuncEvalMultivariate) -> (r: Result<
        Vec<Floating>,
        SolverError,
    >)
        ensures
            *final(self) == *old(self),
            r matches Ok(d) && d@ == negated(eval.g@),
    {
        Ok(negate(&eval.g))
    }
}

} // verus!
