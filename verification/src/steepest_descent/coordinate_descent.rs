//! Coordinate descent: along the coordinate in which the gradient is largest.
use vstd::prelude::*;
use crate::func_eval::FuncEvalMultivariate;
use crate::number::{Floating, NEG_ONE_BITS, ONE_BITS};
use crate::optimization_solver::{ComputeDirection, SolverError};
use crate::steepest_descent::{gradient_is_small, largest_abs};

verus! {

/// The parameters of coordinate descent.
#[derive(Debug)]
pub struct CoordinateDescent {
    pub grad_tol: Floating,
    /// The point a run starts from.
    pub x0: Vec<Floating>,
}

/// The coordinate that a scan of `g` from the front settles on, and the
/// absolute value found there: a coordinate takes over only where its
/// absolute value is larger than every one before it, and larger than zero.
pub open spec fn steepest_coordinate(g: Seq<Floating>) -> (int, Floating)
    decreases g.len(),
{
    if g.len() == 0 {
        (0, Floating::zero_spec())
    } else {
        let (position, largest) = steepest_coordinate(g.drop_last());
        let candidate = g.last().abs_spec();
        if largest.lt_spec(candidate) {
            (g.len() - 1, candidate)
        } else {
            (position, largest)
        }
    }
}

/// The unit step against the slope `g`: one where `g` is negative and minus
/// one elsewhere.
pub open spec fn unit_step_against(g: Floating) -> Floating {
    if g.lt_spec(Floating::zero_spec()) {
        Floating { bits: ONE_BITS }
    } else {
        Floating { bits: NEG_ONE_BITS }
    }
}

/// The direction of coordinate descent for the gradient `g`: the unit step
/// against the gradient in the steepest coordinate, and zero elsewhere. That
/// is minus one where the gradient is positive there and one where it is
/// negative; where no component is larger than zero in absolute value no
/// direction descends, and the step is minus one in the first coordinate.
pub open spec fn coordinate_direction(g: Seq<Floating>) -> Seq<Floating> {
    Seq::new(
        g.len(),
        |i: int|
            if i == steepest_coordinate(g).0 {
                unit_step_against(g[i])
            } else {
                Floating::zero_spec()
            },
    )
}

impl CoordinateDescent {
    pub fn new(grad_tol: Floating, x0: Vec<Floating>) -> (r: Self)
        ensures
            r.grad_tol == grad_tol,
            r.x0 == x0,
    {
        CoordinateDescent { grad_tol, x0 }
    }

    pub fn grad_tol(&self) -> (r: &Floating)
        ensures
            *r == self.grad_tol,
    {
        &self.grad_tol
    }

    pub fn x0(&self) -> (r: &Vec<Floating>)
        ensures
            *r == self.x0,
    {
        &self.x0
    }

    /// Whether the gradient is small against the tolerance.
    pub fn has_converged(&self, eval: &FuncEvalMultivariate) -> (r: bool)
        ensures
            r == gradient_is_small(eval.g@, self.grad_tol),
    {
        largest_abs(&eval.g).lt(self.grad_tol)
    }

    /// The steepest coordinate of `g`.
    pub fn steepest(g: &Vec<Floating>) -> (r: usize)
        ensures
            r == steepest_coordinate(g@).0,
            g.len() > 0 ==> r < g.len(),
    {
        let n = g.len();
        let mut position: usize = 0;
        let mut largest = Floating::zero();
        let mut i: usize = 0;
        while i < n
            invariant
                n == g.len(),
                i <= n,
                (position as int, largest) == steepest_coordinate(g@.take(i as int)),
                i > 0 ==> position < i,
                i == 0 ==> position == 0,
            decreases n - i,
        {
            assert(g@.take(i + 1).drop_last() == g@.take(i as int));
            let candidate = g[i].abs();
            if candidate.gt(largest) {
                position = i;
                largest = candidate;
            }
            i += 1;
        }
        assert(g@.take(n as int) == g@);
        position
    }
}

impl ComputeDirection for CoordinateDescent {
    /// The unit step against the gradient in its steepest coordinate, and
    /// zero elsewhere; no direction at all for a gradient without components.
    fn compute_direction(&mut self, x_k: &Vec<Floating>, eval: &FuncEvalMultivariate) -> (r: Result<
        Vec<Floating>,
        SolverError,
    >)
        ensures
            *final(self) == *old(self),
            r matches Ok(d) && d@ == coordinate_direction(eval.g@),
    {
        let n = eval.g.len();
        let position = CoordinateDescent::steepest(&eval.g);
        let mut direction: Vec<Floating> = Vec::with_capacity(n);
        let mut i: usize = 0;
        while i < n
            invariant
                n == eval.g.len(),
                i <= n,
                direction.len() == i,
                position == steepest_coordinate(eval.g@).0,
                forall|j: int| 0 <= j < i ==> direction[j] == coordinate_direction(eval.g@)[j],
            decreases n - i,
        {
            direction.push(
                if i == position {
                    if eval.g[i].lt(Floating::zero()) {
                        Floating::from_bits(ONE_BITS)
                    } else {
                        Floating::from_bits(NEG_ONE_BITS)
                    }
                } else {
                    Floating::zero()
                },
            );
            i += 1;
        }
        assert(direction@ =~= coordinate_direction(eval.g@));
        Ok(direction)
    }
}

/// The steepest coordinate is a coordinate of the gradient; no component
/// that is a number is larger in absolute value than the value found there;
/// every component before it is strictly smaller; and the value is the
/// absolute value at that coordinate unless no component is larger than
/// zero, where the scan stays at the first coordinate.
pub proof fn lemma_steepest_coordinate(g: Seq<Floating>)
    ensures
        g.len() > 0 ==> 0 <= steepest_coordinate(g).0 < g.len(),
        g.len() == 0 ==> steepest_coordinate(g).0 == 0,
        !steepest_coordinate(g).1.is_nan_spec(),
        !steepest_coordinate(g).1.is_sign_negative_spec(),
        forall|i: int|
            0 <= i < g.len() && !g[i].is_nan_spec() ==> g[i].abs_spec().le_spec(
                steepest_coordinate(g).1,
            ),
        forall|i: int|
            0 <= i < steepest_coordinate(g).0 && !g[i].is_nan_spec() ==> g[i].abs_spec().lt_spec(
                steepest_coordinate(g).1,
            ),
        Floating::zero_spec().lt_spec(steepest_coordinate(g).1) ==> steepest_coordinate(g).1
            == g[steepest_coordinate(g).0].abs_spec(),
        !Floating::zero_spec().lt_spec(steepest_coordinate(g).1) ==> steepest_coordinate(g) == (
            0int,
            Floating::zero_spec(),
        ),
    decreases g.len(),
{
    if g.len() > 0 {
        let init = g.drop_last();
        lemma_steepest_coordinate(init);
        let (position, largest) = steepest_coordinate(init);
        let r = steepest_coordinate(g);
        assert forall|i: int| 0 <= i < g.len() && !g[i].is_nan_spec() implies g[i].abs_spec().le_spec(
            r.1,
        ) by {
            if i < g.len() - 1 {
                assert(init[i] == g[i]);
            }
        }
        assert forall|i: int| 0 <= i < r.0 && !g[i].is_nan_spec() implies g[i].abs_spec().lt_spec(
            r.1,
        ) by {
            assert(init[i] == g[i]);
        }
        if Floating::zero_spec().lt_spec(r.1) {
            if r.0 < g.len() - 1 {
                assert(init[r.0] == g[r.0]);
            }
        }
    }
}

/// Coordinate descent descends: where some component of the gradient is
/// larger than zero in absolute value, the direction is zero but in the
/// steepest coordinate, where the gradient is a number other than zero and
/// the step is one against a negative and minus one against a positive
/// gradient.
pub proof fn lemma_coordinate_direction_descends(g: Seq<Floating>)
    requires
        Floating::zero_spec().lt_spec(steepest_coordinate(g).1),
    ensures
        0 <= steepest_coordinate(g).0 < g.len(),
        coordinate_direction(g).len() == g.len(),
        forall|i: int|
            0 <= i < g.len() && i != steepest_coordinate(g).0 ==> coordinate_direction(g)[i]
                == Floating::zero_spec(),
        ({
            let at = steepest_coordinate(g).0;
            &&& !g[at].is_nan_spec() && !g[at].eq_value(Floating::zero_spec())
            &&& g[at].lt_spec(Floating::zero_spec()) ==> coordinate_direction(g)[at] == Floating::one_spec()
            &&& Floating::zero_spec().lt_spec(g[at]) ==> coordinate_direction(g)[at] == (Floating {
                bits: NEG_ONE_BITS,
            })
            &&& Floating::zero_spec().lt_spec(g[at]) || g[at].lt_spec(Floating::zero_spec())
        }),
{
    lemma_steepest_coordinate(g);
    if g.len() == 0 {
        assert(steepest_coordinate(g).1 == Floating::zero_spec());
    }
}

} // verus!
