//! The online scaled gradient method: the shapes its scaling can take, and
//! what it decides after each trial.
use vstd::prelude::*;
use crate::func_eval::Matrix;
use crate::number::Floating;

verus! {

/// The scaling of the gradient step.
#[derive(Debug)]
pub enum SparsityPattern {
    /// One factor for each coordinate.
    Diagonal(Vec<Floating>),
    /// A full matrix.
    Normal(Matrix),
}

/// `n` times the number one.
pub open spec fn ones(n: nat) -> Seq<Floating> {
    Seq::new(n, |i: int| Floating::one_spec())
}

fn vec_of_ones(n: usize) -> (r: Vec<Floating>)
    ensures
        r@ == ones(n as nat),
{
    let mut out: Vec<Floating> = Vec::with_capacity(n);
    let mut i: usize = 0;
    while i < n
        invariant
            i <= n,
            out.len() == i,
            forall|j: int| 0 <= j < i ==> out[j] == Floating::one_spec(),
        decreases n - i,
    {
        out.push(Floating::one());
        i += 1;
    }
    assert(out@ =~= ones(n as nat));
    out
}

impl SparsityPattern {
    /// The diagonal scaling by one in `n` coordinates.
    pub fn default_diagonal(n: usize) -> (r: Self)
        ensures
            r matches SparsityPattern::Diagonal(p) && p@ == ones(n as nat),
    {
        SparsityPattern::Diagonal(vec_of_ones(n))
    }

    /// The scaling by the matrix of order `n` whose entries are all one.
    pub fn default_normal(n: usize) -> (r: Self)
        requires
            n * n <= usize::MAX,
        ensures
            r matches SparsityPattern::Normal(p) && p.wf() && p.nrows_spec() == n && p.ncols_spec()
                == n && p.entries() == ones((n * n) as nat),
    {
        SparsityPattern::Normal(Matrix::from_vec(n, n, vec_of_ones(n * n)).unwrap())
    }

    pub fn new_diagonal(p: Vec<Floating>) -> (r: Self)
        ensures
            r == SparsityPattern::Diagonal(p),
    {
        SparsityPattern::Diagonal(p)
    }

    pub fn new_normal(p: Matrix) -> (r: Self)
        ensures
            r == SparsityPattern::Normal(p),
    {
        SparsityPattern::Normal(p)
    }
}

/// What the method does after a trial.
#[derive(Clone, Copy, Debug, PartialEq, Eq, Structural)]
pub struct OnlineDecision {
    /// Whether the trial point becomes the iterate.
    pub moves: bool,
    /// Whether the run ends after this trial.
    pub stops: bool,
}

/// The decision after a trial: the trial point is taken where the gradient
/// is shorter there than at the iterate, and the run ends where the gradient
/// at the iterate was shorter than the tolerance.
pub open spec fn online_decision(
    gradient_norm: Floating,
    trial_gradient_norm: Floating,
    grad_tol: Floating,
) -> OnlineDecision {
    OnlineDecision {
        moves: trial_gradient_norm.lt_spec(gradient_norm),
        stops: gradient_norm.lt_spec(grad_tol),
    }
}

/// The online scaled gradient method.
#[derive(Debug)]
pub struct OSGMG {}

impl OSGMG {
    /// The decision after a trial: see [`online_decision`].
    pub fn decide(gradient_norm: &Floating, trial_gradient_norm: &Floating, grad_tol: &Floating) -> (r:
        OnlineDecision)
        ensures
            r == online_decision(*gradient_norm, *trial_gradient_norm, *grad_tol),
    {
        OnlineDecision {
            moves: trial_gradient_norm.lt(*gradient_norm),
            stops: gradient_norm.lt(*grad_tol),
        }
    }
}

} // verus!
