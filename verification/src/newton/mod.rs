//! Newton's method: what it remembers of the last Newton system, and when it
//! stops.
use vstd::prelude::*;
use crate::number::Floating;

pub mod projected_newton;

verus! {

/// The squared Newton decrement at an iterate, and half of it as the caller
/// computed it.
#[derive(Clone, Copy, Debug)]
pub struct NewtonDecrement {
    pub squared: Floating,
    pub half: Floating,
}

/// What solving the Newton system at an iterate gave: the direction and the
/// decrement.
#[derive(Debug)]
pub struct NewtonStep {
    pub direction: Vec<Floating>,
    pub decrement: NewtonDecrement,
}

/// The memory of Newton's method.
#[derive(Debug)]
pub struct Newton {
    tol: Floating,
    decrement: Option<NewtonDecrement>,
    x0: Vec<Floating>,
}

/// The gradient with the sign of every component flipped.
pub open spec fn negated(g: Seq<Floating>) -> Seq<Floating> {
    Seq::new(g.len(), |i: int| g[i].neg_spec())
}

/// The gradient with the sign of every component flipped: the direction of
/// steepest descent.
pub fn negate(g: &Vec<Floating>) -> (r: Vec<Floating>)
    ensures
        r@ == negated(g@),
{
    let n = g.len();
    let mut out: Vec<Floating> = Vec::with_capacity(n);
    let mut i: usize = 0;
    while i < n
        invariant
            n == g.len(),
            i <= n,
            out.len() == i,
            forall|j: int| 0 <= j < i ==> out[j] == g[j].neg_spec(),
        decreases n - i,
    {
        out.push(g[i].neg());
        i += 1;
    }
    assert(out@ =~= negated(g@));
    out
}

impl Newton {
    pub closed spec fn tol_spec(&self) -> Floating {
        self.tol
    }

    /// The decrement of the last Newton system that could be solved, and
    /// `None` before the first and after one that could not.
    pub closed spec fn decrement_spec(&self) -> Option<NewtonDecrement> {
        self.decrement
    }

    /// The point a run starts from.
    pub closed spec fn start(&self) -> Seq<Floating> {
        self.x0@
    }

    pub fn new(tol: Floating, x0: Vec<Floating>) -> (r: Self)
        ensures
            r.tol_spec() == tol,
            r.start() == x0@,
            r.decrement_spec() is None,
    {
        Newton { tol, decrement: None, x0 }
    }

    pub fn tol(&self) -> (r: &Floating)
        ensures
            *r == self.tol_spec(),
    {
        &self.tol
    }

    pub fn x0(&self) -> (r: &Vec<Floating>)
        ensures
            r@ == self.start(),
    {
        &self.x0
    }

    /// The squared Newton decrement of the last Newton system that could be
    /// solved.
    pub fn decrement_squared(&self) -> (r: Option<Floating>)
        ensures
            r == match self.decrement_spec() {
                Some(d) => Some(d.squared),
                None => None,
            },
    {
        match self.decrement {
            Some(d) => Some(d.squared),
            None => None,
        }
    }

    /// The direction at an iterate with gradient `g`: the solution of the
    /// Newton system where there is one, whose decrement is kept for the
    /// convergence test, and the direction of steepest descent where the
    /// Hessian is singular, after which the test has nothing to go by.
    pub fn direction(&mut self, g: &Vec<Floating>, solved: Option<NewtonStep>) -> (r: Vec<Floating>)
        ensures
            final(self).tol_spec() == old(self).tol_spec(),
            final(self).start() == old(self).start(),
            match solved {
                Some(step) => r == step.direction && final(self).decrement_spec() == Some(
                    step.decrement,
                ),
                None => r@ == negated(g@) && final(self).decrement_spec() is None,
            },
    {
        match solved {
            Some(step) => {
                self.decrement = Some(step.decrement);
                step.direction
            },
            None => {
                self.decrement = None;
                negate(g)
            },
        }
    }

    pub open spec fn has_converged_spec(&self) -> bool {
        self.decrement_spec() matches Some(d) && d.half.lt_spec(self.tol_spec())
    }

    /// Whether half the squared decrement of the last Newton system is below
    /// the tolerance; never, where that system could not be solved.
    pub fn has_converged(&self) -> (r: bool)
        ensures
            r == self.has_converged_spec(),
    {
        match self.decrement {
            Some(d) => d.half.lt(self.tol),
            None => false,
        }
    }
}

/// Flipping the sign twice gives the gradient back, bit for bit.
pub proof fn lemma_negated_twice(g: Seq<Floating>)
    ensures
        negated(negated(g)) == g,
{
    assert(negated(negated(g)) =~= g);
}

} // verus!
