//! The line search that does not search.
use vstd::prelude::*;
use crate::func_eval::FuncEvalMultivariate;
use crate::number::Floating;
use crate::line_search::LineSearch;

verus! {

/// Takes the full step along every direction.
pub struct NoSearch;

impl LineSearch for NoSearch {
    fn compute_step_len<O: Fn(&Vec<Floating>) -> FuncEvalMultivariate>(
        &mut self,
        x_k: &Vec<Floating>,
        eval_x_k: &FuncEvalMultivariate,
        direction_k: &Vec<Floating>,
        oracle: &O,
        max_iter: usize,
    ) -> (t: Floating)
        ensures
            t == Floating::one_spec(),
    {
        Floating::one()
    }
}

} // verus!
