//! The iteration driver shared by every method.
//!
//! A [`Solver`] owns the iterate, the iteration counter and the state of a
//! run. It evaluates the oracle, tests the value for finiteness, and asks its
//! method for convergence, a direction and the next iterate, in that order.
//! Everything the driver decides is stated in [`state_after`] and
//! [`count_after`]; what a method answers is the method's own business, and
//! the driver says of each answer what it was asked for and what became of
//! it.
use vstd::prelude::*;
use crate::func_eval::FuncEvalMultivariate;
use crate::line_search::LineSearch;
use crate::number::Floating;

verus! {

/// Why a run ended without convergence.
#[derive(Clone, Copy, Debug, PartialEq, Eq, Structural)]
pub enum SolverError {
    /// The iteration budget ran out before the convergence test held.
    MaxIterReached,
    /// The objective was NaN or infinite at an iterate.
    OutOfDomain,
}

impl SolverError {
    pub open spec fn description_spec(self) -> Seq<char> {
        match self {
            SolverError::MaxIterReached => "Max iter reached"@,
            SolverError::OutOfDomain => "Out of domain"@,
        }
    }

    /// The message of this error.
    pub fn description(&self) -> (r: &'static str)
        ensures
            r@ == self.description_spec(),
    {
        match self {
            SolverError::MaxIterReached => "Max iter reached",
            SolverError::OutOfDomain => "Out of domain",
        }
    }
}

/// Where a run stands.
#[derive(Clone, Copy, Debug, PartialEq, Eq, Structural)]
pub enum SolverState {
    Running,
    Converged,
    OutOfDomain,
    MaxIterReached,
}

/// How one iteration ended.
#[derive(Clone, Copy, Debug, PartialEq, Eq, Structural)]
pub enum StepOutcome {
    /// The objective was NaN or infinite at the iterate.
    OutOfDomain,
    /// The method's convergence test held at the iterate.
    Converged,
    /// The method gave up while computing a direction or the next iterate.
    Failed(SolverError),
    /// The iterate was replaced by the next one.
    Advanced,
}

/// The state that follows iteration number `k` of a run with a budget of
/// `max_iter` iterations.
pub open spec fn state_after(k: int, max_iter: int, outcome: StepOutcome) -> SolverState {
    match outcome {
        StepOutcome::OutOfDomain => SolverState::OutOfDomain,
        StepOutcome::Converged => SolverState::Converged,
        StepOutcome::Failed(SolverError::OutOfDomain) => SolverState::OutOfDomain,
        StepOutcome::Failed(SolverError::MaxIterReached) => SolverState::MaxIterReached,
        StepOutcome::Advanced => if k + 1 == max_iter {
            SolverState::MaxIterReached
        } else {
            SolverState::Running
        },
    }
}

/// The iteration counter after iteration number `k`.
pub open spec fn count_after(k: int, outcome: StepOutcome) -> int {
    if outcome == StepOutcome::Advanced {
        k + 1
    } else {
        k
    }
}

impl SolverState {
    /// What `minimize` returns when it stops in this state.
    pub open spec fn result_spec(self) -> Option<Result<(), SolverError>> {
        match self {
            SolverState::Running => None,
            SolverState::Converged => Some(Ok(())),
            SolverState::OutOfDomain => Some(Err(SolverError::OutOfDomain)),
            SolverState::MaxIterReached => Some(Err(SolverError::MaxIterReached)),
        }
    }

    /// What `minimize` returns when it stops in this state, and `None` while
    /// the run goes on.
    pub fn result(self) -> (r: Option<Result<(), SolverError>>)
        ensures
            r == self.result_spec(),
    {
        match self {
            SolverState::Running => None,
            SolverState::Converged => Some(Ok(())),
            SolverState::OutOfDomain => Some(Err(SolverError::OutOfDomain)),
            SolverState::MaxIterReached => Some(Err(SolverError::MaxIterReached)),
        }
    }

    /// The transition of the driver: the state and the counter that follow
    /// iteration number `k`, given how that iteration ended.
    pub fn after_step(k: usize, max_iter: usize, outcome: StepOutcome) -> (r: (SolverState, usize))
        requires
            k < max_iter,
        ensures
            r.0 == state_after(k as int, max_iter as int, outcome),
            r.1 == count_after(k as int, outcome),
    {
        match outcome {
            StepOutcome::OutOfDomain => (SolverState::OutOfDomain, k),
            StepOutcome::Converged => (SolverState::Converged, k),
            StepOutcome::Failed(SolverError::OutOfDomain) => (SolverState::OutOfDomain, k),
            StepOutcome::Failed(SolverError::MaxIterReached) => (SolverState::MaxIterReached, k),
            StepOutcome::Advanced => {
                if k + 1 == max_iter {
                    (SolverState::MaxIterReached, k + 1)
                } else {
                    (SolverState::Running, k + 1)
                }
            },
        }
    }
}

/// The part of a method that proposes a search direction at the iterate
/// `x_k`, from the evaluation of the objective there.
pub trait ComputeDirection {
    fn compute_direction(
        &mut self,
        x_k: &Vec<Floating>,
        eval: &FuncEvalMultivariate,
    ) -> Result<Vec<Floating>, SolverError>;
}

/// A method with its convergence test.
pub trait OptimizationSolver: ComputeDirection {
    fn has_converged(&self, x_k: &Vec<Floating>, eval: &FuncEvalMultivariate) -> bool;
}

/// A method with its way from one iterate to the next, for a line search of
/// type `LS` and an oracle of type `O`.
pub trait LineSearchSolver<
    LS: LineSearch,
    O: Fn(&Vec<Floating>) -> FuncEvalMultivariate,
>: OptimizationSolver {
    /// The iterate that follows `x_k` along `direction`, with the step length
    /// that `line_search` picks; a method with memory refreshes it here.
    fn update_next_iterate(
        &mut self,
        x_k: &Vec<Floating>,
        line_search: &mut LS,
        eval_x_k: &FuncEvalMultivariate,
        oracle: &O,
        direction: &Vec<Floating>,
        max_iter_line_search: usize,
    ) -> Result<Vec<Floating>, SolverError>
        requires
            forall|x: &Vec<Floating>| oracle.requires((x,)),
    ;
}

/// One run of a method: the method with its memory, the iterate, the number
/// of iterations done and the state.
pub struct Solver<M> {
    method: M,
    x: Vec<Floating>,
    k: usize,
    state: SolverState,
}

impl<M> Solver<M> {
    pub closed spec fn method_spec(&self) -> M {
        self.method
    }

    /// The iterate.
    pub closed spec fn point(&self) -> Seq<Floating> {
        self.x@
    }

    /// The number of iterations done.
    pub closed spec fn iterations(&self) -> nat {
        self.k as nat
    }

    pub closed spec fn state_spec(&self) -> SolverState {
        self.state
    }

    /// A run of `method` that starts at `x0`.
    pub fn new(method: M, x0: Vec<Floating>) -> (r: Self)
        ensures
            r.method_spec() == method,
            r.point() == x0@,
            r.iterations() == 0,
            r.state_spec() == SolverState::Running,
    {
        Solver { method, x: x0, k: 0, state: SolverState::Running }
    }

    pub fn method(&self) -> (r: &M)
        ensures
            *r == self.method_spec(),
    {
        &self.method
    }

    pub fn xk(&self) -> (r: &Vec<Floating>)
        ensures
            r@ == self.point(),
    {
        &self.x
    }

    pub fn k(&self) -> (r: &usize)
        ensures
            *r == self.iterations(),
    {
        &self.k
    }

    pub fn state(&self) -> (r: SolverState)
        ensures
            r == self.state_spec(),
    {
        self.state
    }

    /// Whether the objective is NaN or infinite wherever the oracle is asked
    /// at the iterate.
    pub open spec fn out_of_domain<O: Fn(&Vec<Floating>) -> FuncEvalMultivariate>(
        &self,
        oracle: &O,
    ) -> bool {
        forall|x: &Vec<Floating>, eval: FuncEvalMultivariate|
            x@ == self.point() && #[trigger] oracle.ensures((x,), eval) ==> !eval.f.is_finite_spec()
    }

    /// Whether `eval` is what the oracle may answer at `point`.
    pub open spec fn answers_at<O: Fn(&Vec<Floating>) -> FuncEvalMultivariate>(
        oracle: &O,
        point: Seq<Floating>,
        eval: FuncEvalMultivariate,
    ) -> bool {
        exists|x: &Vec<Floating>| x@ == point && #[trigger] oracle.ensures((x,), eval)
    }

    /// Whether `eval` is what the oracle may answer at the iterate.
    pub open spec fn answered<O: Fn(&Vec<Floating>) -> FuncEvalMultivariate>(
        &self,
        oracle: &O,
        eval: FuncEvalMultivariate,
    ) -> bool {
        exists|x: &Vec<Floating>| x@ == self.point() && #[trigger] oracle.ensures((x,), eval)
    }

    /// Asks the oracle at the iterate, and refuses a value that is NaN or
    /// infinite.
    pub fn evaluate_x_k<O: Fn(&Vec<Floating>) -> FuncEvalMultivariate>(&self, oracle: &O) -> (r:
        Result<FuncEvalMultivariate, SolverError>)
        requires
            forall|x: &Vec<Floating>| oracle.requires((x,)),
        ensures
            match r {
                Ok(eval) => self.answered(oracle, eval) && eval.f.is_finite_spec(),
                Err(e) => e == SolverError::OutOfDomain && exists|eval: FuncEvalMultivariate|
                    #[trigger] self.answered(oracle, eval) && !eval.f.is_finite_spec(),
            },
            self.out_of_domain(oracle) ==> r is Err,
    {
        let eval = oracle(&self.x);
        assert(oracle.ensures((&self.x,), eval));
        assert(self.answered(oracle, eval));
        if eval.f.is_nan() || eval.f.is_infinite() {
            return Err(SolverError::OutOfDomain);
        }
        Ok(eval)
    }
}

impl<M: OptimizationSolver> Solver<M> {
    /// Whether `answer` is what the convergence test of the method may say
    /// at the iterate, of the evaluation `eval` there.
    pub open spec fn tested(&self, eval: FuncEvalMultivariate, answer: bool) -> bool {
        exists|x: &Vec<Floating>|
            x@ == self.point() && #[trigger] call_ensures(
                M::has_converged,
                (&self.method_spec(), x, &eval),
                answer,
            )
    }

    /// Whether the run may stop at the iterate as converged: the oracle has
    /// a finite answer there on which the convergence test holds.
    pub open spec fn converged_here<O: Fn(&Vec<Floating>) -> FuncEvalMultivariate>(
        &self,
        oracle: &O,
    ) -> bool {
        exists|eval: FuncEvalMultivariate|
            #[trigger] self.answered(oracle, eval) && eval.f.is_finite_spec() && self.tested(
                eval,
                true,
            )
    }

    /// Whether the run may go past the convergence test at the iterate: the
    /// oracle has a finite answer there on which the test fails.
    pub open spec fn unconverged_here<O: Fn(&Vec<Floating>) -> FuncEvalMultivariate>(
        &self,
        oracle: &O,
    ) -> bool {
        exists|eval: FuncEvalMultivariate|
            #[trigger] self.answered(oracle, eval) && eval.f.is_finite_spec() && self.tested(
                eval,
                false,
            )
    }

    /// One iteration, or nothing where the run has ended. Returns how the
    /// iteration ended, and `None` where there was none.
    ///
    /// The iteration evaluates the oracle at the iterate; a value that is NaN
    /// or infinite ends the run before the method is asked anything. Then the
    /// convergence test, the direction and the next iterate follow; the
    /// counter moves only when the iterate does.
    ///
    /// Where the iterate moves, the new iterate is the one that the method's
    /// `update_next_iterate` returned for the old iterate, the evaluation
    /// there and the direction that its `compute_direction` returned; the
    /// method and the line search are left as those two calls left them.
    /// Where the iteration fails, the error is the one that one of the two
    /// calls returned. Where it ends before the method is asked for a
    /// direction, the line search is left as it was.
    pub fn step<LS: LineSearch, O: Fn(&Vec<Floating>) -> FuncEvalMultivariate>(
        &mut self,
        line_search: &mut LS,
        oracle: &O,
        max_iter_solver: usize,
        max_iter_line_search: usize,
    ) -> (outcome: Option<StepOutcome>) where M: LineSearchSolver<LS, O>
        requires
            forall|x: &Vec<Floating>| oracle.requires((x,)),
        ensures
            outcome is None <==> old(self).state_spec() != SolverState::Running || old(self).iterations()
                >= max_iter_solver,
            old(self).state_spec() != SolverState::Running ==> *final(self) == *old(self),
            old(self).state_spec() == SolverState::Running && old(self).iterations()
                >= max_iter_solver ==> {
                &&& final(self).state_spec() == SolverState::MaxIterReached
                &&& final(self).iterations() == old(self).iterations()
                &&& final(self).point() == old(self).point()
                &&& final(self).method_spec() == old(self).method_spec()
            },
            outcome matches Some(o) ==> {
                &&& final(self).state_spec() == state_after(
                    old(self).iterations() as int,
                    max_iter_solver as int,
                    o,
                )
                &&& final(self).iterations() == count_after(old(self).iterations() as int, o)
                &&& o != StepOutcome::Advanced ==> final(self).point() == old(self).point()
                &&& o == StepOutcome::OutOfDomain || o == StepOutcome::Converged ==> final(self).method_spec()
                    == old(self).method_spec()
                &&& o != StepOutcome::OutOfDomain ==> !old(self).out_of_domain(oracle)
                &&& o == StepOutcome::OutOfDomain ==> exists|eval: FuncEvalMultivariate|
                    #[trigger] old(self).answered(oracle, eval) && !eval.f.is_finite_spec()
                &&& o == StepOutcome::Converged ==> old(self).converged_here(oracle)
                &&& o != StepOutcome::OutOfDomain && o != StepOutcome::Converged ==> old(self).unconverged_here(
                    oracle,
                )
                &&& o == StepOutcome::OutOfDomain || o == StepOutcome::Converged ==> *final(line_search)
                    == *old(line_search)
            },
            outcome is None ==> *final(line_search) == *old(line_search),
            outcome == Some(StepOutcome::Advanced) ==> exists|
                asked: &mut M,
                moved: &mut M,
                search: &mut LS,
                x: &Vec<Floating>,
                eval: FuncEvalMultivariate,
                direction: Vec<Floating>,
                next: Vec<Floating>,
            |
                x@ == old(self).point() && old(self).answered(oracle, eval) && eval.f.is_finite_spec()
                    && call_ensures(M::has_converged, (&old(self).method_spec(), x, &eval), false)
                    && mut_ref_current(asked) == old(self).method_spec() && #[trigger] call_ensures(
                    M::compute_direction,
                    (asked, x, &eval),
                    Ok::<Vec<Floating>, SolverError>(direction),
                ) && mut_ref_current(moved) == mut_ref_future(asked) && mut_ref_future(moved)
                    == final(self).method_spec() && mut_ref_current(search) == *old(line_search)
                    && mut_ref_future(search) == *final(line_search) && #[trigger] call_ensures(
                    <M as LineSearchSolver<LS, O>>::update_next_iterate,
                    (moved, x, search, &eval, oracle, &direction, max_iter_line_search),
                    Ok::<Vec<Floating>, SolverError>(next),
                ) && next@ == final(self).point(),
            outcome matches Some(StepOutcome::Failed(e)) ==> (*final(line_search) == *old(line_search)
                && exists|asked: &mut M, x: &Vec<Floating>, eval: FuncEvalMultivariate|
                x@ == old(self).point() && old(self).answered(oracle, eval) && eval.f.is_finite_spec()
                    && call_ensures(M::has_converged, (&old(self).method_spec(), x, &eval), false)
                    && mut_ref_current(asked) == old(self).method_spec() && mut_ref_future(asked)
                    == final(self).method_spec() && #[trigger] call_ensures(
                    M::compute_direction,
                    (asked, x, &eval),
                    Err::<Vec<Floating>, SolverError>(e),
                )) || (exists|
                asked: &mut M,
                moved: &mut M,
                search: &mut LS,
                x: &Vec<Floating>,
                eval: FuncEvalMultivariate,
                direction: Vec<Floating>,
            |
                x@ == old(self).point() && old(self).answered(oracle, eval) && eval.f.is_finite_spec()
                    && call_ensures(M::has_converged, (&old(self).method_spec(), x, &eval), false)
                    && mut_ref_current(asked) == old(self).method_spec() && #[trigger] call_ensures(
                    M::compute_direction,
                    (asked, x, &eval),
                    Ok::<Vec<Floating>, SolverError>(direction),
                ) && mut_ref_current(moved) == mut_ref_future(asked) && mut_ref_future(moved)
                    == final(self).method_spec() && mut_ref_current(search) == *old(line_search)
                    && mut_ref_future(search) == *final(line_search) && #[trigger] call_ensures(
                    <M as LineSearchSolver<LS, O>>::update_next_iterate,
                    (moved, x, search, &eval, oracle, &direction, max_iter_line_search),
                    Err::<Vec<Floating>, SolverError>(e),
                )),
    {
        if self.state != SolverState::Running {
            return None;
        }
        if self.k >= max_iter_solver {
            self.state = SolverState::MaxIterReached;
            return None;
        }
        let outcome = match self.evaluate_x_k(oracle) {
            Err(_) => StepOutcome::OutOfDomain,
            Ok(eval) => {
                let converged = self.method.has_converged(&self.x, &eval);
                assert(self.tested(eval, converged));
                if converged {
                    StepOutcome::Converged
                } else {
                    match self.method.compute_direction(&self.x, &eval) {
                        Err(e) => StepOutcome::Failed(e),
                        Ok(direction) => {
                            match self.method.update_next_iterate(
                                &self.x,
                                line_search,
                                &eval,
                                oracle,
                                &direction,
                                max_iter_line_search,
                            ) {
                                Err(e) => StepOutcome::Failed(e),
                                Ok(next_iterate) => {
                                    self.x = next_iterate;
                                    StepOutcome::Advanced
                                },
                            }
                        },
                    }
                }
            },
        };
        let (state, k) = SolverState::after_step(self.k, max_iter_solver, outcome);
        self.state = state;
        self.k = k;
        Some(outcome)
    }

    /// Whether the run is sure to stop at the iterate as converged: whatever
    /// the oracle answers there is finite, and the convergence test cannot
    /// fail on it.
    pub open spec fn surely_converged_here<O: Fn(&Vec<Floating>) -> FuncEvalMultivariate>(
        &self,
        oracle: &O,
    ) -> bool {
        forall|eval: FuncEvalMultivariate| #[trigger]
            self.answered(oracle, eval) ==> eval.f.is_finite_spec() && !self.tested(eval, false)
    }

    /// Whether the convergence test of the method holds nowhere, whatever the
    /// method remembers.
    pub open spec fn never_converges() -> bool {
        forall|method: &M, x: &Vec<Floating>, eval: &FuncEvalMultivariate|
            !#[trigger] call_ensures(M::has_converged, (method, x, eval), true)
    }

    /// Whether the method never fails, neither when it is asked for a
    /// direction nor when it is asked for the next iterate.
    pub open spec fn never_fails<LS: LineSearch, O: Fn(&Vec<Floating>) -> FuncEvalMultivariate>() -> bool
        where M: LineSearchSolver<LS, O> {
        &&& forall|method: &mut M, x: &Vec<Floating>, eval: &FuncEvalMultivariate, e: SolverError|
            !#[trigger] call_ensures(
                M::compute_direction,
                (method, x, eval),
                Err::<Vec<Floating>, SolverError>(e),
            )
        &&& forall|
            method: &mut M,
            x: &Vec<Floating>,
            search: &mut LS,
            eval: &FuncEvalMultivariate,
            oracle: &O,
            direction: &Vec<Floating>,
            max_iter_line_search: usize,
            e: SolverError,
        |
            !#[trigger] call_ensures(
                <M as LineSearchSolver<LS, O>>::update_next_iterate,
                (method, x, search, eval, oracle, direction, max_iter_line_search),
                Err::<Vec<Floating>, SolverError>(e),
            )
    }

    /// Runs the method from the iterate the solver holds until it converges,
    /// leaves the domain of the objective, fails, or has done
    /// `max_iter_solver` iterations. The counter starts again at zero.
    /// `callback`, where there is one, sees the solver after every iteration
    /// that moved the iterate.
    ///
    /// The run is a chain of iterates, one for each iteration that moved the
    /// iterate, and the contract gives the chain: it starts at the iterate,
    /// the method and the line search as they were, it ends at the iterate
    /// as it is, and each link is what the method returned for the link
    /// before, as [`Solver::step`] says of one iteration.
    ///
    /// The result is that of the state the run ends in. `Ok` comes only from
    /// a finite iterate on which the convergence test holds, and it comes
    /// at once where the start is sure to be such an iterate. The budget
    /// error comes only with the count at the budget or from the method, and
    /// the domain error only from a value of the objective that is not
    /// finite at the last iterate or from the method. A method that never
    /// converges and never fails, on an objective that is finite everywhere,
    /// spends the whole budget.
    pub fn minimize<
        LS: LineSearch,
        O: Fn(&Vec<Floating>) -> FuncEvalMultivariate,
        C: Fn(&Solver<M>),
    >(
        &mut self,
        line_search: &mut LS,
        oracle: O,
        max_iter_solver: usize,
        max_iter_line_search: usize,
        callback: Option<&C>,
    ) -> (r: Result<(), SolverError>) where M: LineSearchSolver<LS, O>
        requires
            forall|x: &Vec<Floating>| oracle.requires((x,)),
            callback matches Some(cb) ==> forall|s: &Solver<M>| cb.requires((s,)),
        ensures
            final(self).state_spec().result_spec() == Some(r),
            final(self).iterations() <= max_iter_solver,
            r is Ok ==> final(self).iterations() < max_iter_solver,
            r is Ok ==> final(self).converged_here(&oracle),
            max_iter_solver == 0 ==> {
                &&& r == Err::<(), SolverError>(SolverError::MaxIterReached)
                &&& final(self).point() == old(self).point()
                &&& final(self).method_spec() == old(self).method_spec()
                &&& *final(line_search) == *old(line_search)
            },
            max_iter_solver > 0 && old(self).out_of_domain(&oracle) ==> {
                &&& r == Err::<(), SolverError>(SolverError::OutOfDomain)
                &&& final(self).iterations() == 0
                &&& final(self).point() == old(self).point()
                &&& final(self).method_spec() == old(self).method_spec()
                &&& *final(line_search) == *old(line_search)
            },
            max_iter_solver > 0 && old(self).surely_converged_here(&oracle) ==> {
                &&& r is Ok
                &&& final(self).iterations() == 0
                &&& final(self).point() == old(self).point()
                &&& final(self).method_spec() == old(self).method_spec()
                &&& *final(line_search) == *old(line_search)
            },
            final(self).iterations() == 0 && (r is Ok || final(self).out_of_domain(&oracle)) ==> {
                &&& final(self).point() == old(self).point()
                &&& final(self).method_spec() == old(self).method_spec()
                &&& *final(line_search) == *old(line_search)
            },
            r matches Err(e) ==> (e == SolverError::MaxIterReached && final(self).iterations()
                == max_iter_solver) || (e == SolverError::OutOfDomain && exists|
                eval: FuncEvalMultivariate,
            | #[trigger]
                final(self).answered(&oracle, eval) && !eval.f.is_finite_spec()) || (exists|
                asked: &mut M,
                x: &Vec<Floating>,
                eval: FuncEvalMultivariate,
            |
                x@ == final(self).point() && final(self).answered(&oracle, eval)
                    && eval.f.is_finite_spec() && call_ensures(
                    M::has_converged,
                    (&mut_ref_current(asked), x, &eval),
                    false,
                ) && mut_ref_future(asked) == final(self).method_spec() && #[trigger] call_ensures(
                    M::compute_direction,
                    (asked, x, &eval),
                    Err::<Vec<Floating>, SolverError>(e),
                )) || (exists|
                asked: &mut M,
                moved: &mut M,
                search: &mut LS,
                x: &Vec<Floating>,
                eval: FuncEvalMultivariate,
                direction: Vec<Floating>,
            |
                x@ == final(self).point() && final(self).answered(&oracle, eval)
                    && eval.f.is_finite_spec() && call_ensures(
                    M::has_converged,
                    (&mut_ref_current(asked), x, &eval),
                    false,
                ) && #[trigger] call_ensures(
                    M::compute_direction,
                    (asked, x, &eval),
                    Ok::<Vec<Floating>, SolverError>(direction),
                ) && mut_ref_current(moved) == mut_ref_future(asked) && mut_ref_future(moved)
                    == final(self).method_spec() && mut_ref_future(search) == *final(line_search)
                    && #[trigger] call_ensures(
                    <M as LineSearchSolver<LS, O>>::update_next_iterate,
                    (moved, x, search, &eval, &oracle, &direction, max_iter_line_search),
                    Err::<Vec<Floating>, SolverError>(e),
                )),
            exists|run: Seq<(M, Seq<Floating>, LS)>|
                run.len() == final(self).iterations() + 1 && run[0] == (
                    old(self).method_spec(),
                    old(self).point(),
                    *old(line_search),
                ) && run.last().1 == final(self).point() && (r is Ok || final(self).iterations()
                    == max_iter_solver || final(self).out_of_domain(&oracle) ==> run.last().0
                    == final(self).method_spec() && run.last().2 == *final(line_search)) && forall|i: int|
                    #![trigger run[i]]
                    0 <= i < run.len() - 1 ==> exists|
                    asked: &mut M,
                    moved: &mut M,
                    search: &mut LS,
                    x: &Vec<Floating>,
                    eval: FuncEvalMultivariate,
                    direction: Vec<Floating>,
                    next: Vec<Floating>,
                |
                    x@ == run[i].1 && Self::answers_at(&oracle, run[i].1, eval) && eval.f.is_finite_spec()
                        && call_ensures(M::has_converged, (&run[i].0, x, &eval), false)
                        && mut_ref_current(asked) == run[i].0 && #[trigger] call_ensures(
                        M::compute_direction,
                        (asked, x, &eval),
                        Ok::<Vec<Floating>, SolverError>(direction),
                    ) && mut_ref_current(moved) == mut_ref_future(asked) && mut_ref_future(moved)
                        == run[i + 1].0 && mut_ref_current(search) == run[i].2 && mut_ref_future(
                        search,
                    ) == run[i + 1].2 && #[trigger] call_ensures(
                        <M as LineSearchSolver<LS, O>>::update_next_iterate,
                        (moved, x, search, &eval, &oracle, &direction, max_iter_line_search),
                        Ok::<Vec<Floating>, SolverError>(next),
                    ) && next@ == run[i + 1].1,
            (forall|x: &Vec<Floating>, eval: FuncEvalMultivariate| #[trigger]
                oracle.ensures((x,), eval) ==> eval.f.is_finite_spec()) && Self::never_converges()
                && Self::never_fails::<LS, O>() ==> r == Err::<(), SolverError>(
                SolverError::MaxIterReached,
            ) && final(self).iterations() == max_iter_solver,
    {
        self.k = 0;
        self.state = SolverState::Running;
        let ghost mut run: Seq<(M, Seq<Floating>, LS)> = seq![
            (self.method_spec(), self.point(), *line_search),
        ];
        loop
            invariant
                run.len() == self.k + 1,
                run[0] == (old(self).method_spec(), old(self).point(), *old(line_search)),
                run.last() == (self.method_spec(), self.point(), *line_search),
                forall|i: int|
                    #![trigger run[i]]
                    0 <= i < run.len() - 1 ==> exists|
                    asked: &mut M,
                    moved: &mut M,
                    search: &mut LS,
                    x: &Vec<Floating>,
                    eval: FuncEvalMultivariate,
                    direction: Vec<Floating>,
                    next: Vec<Floating>,
                |
                    x@ == run[i].1 && Self::answers_at(&oracle, run[i].1, eval) && eval.f.is_finite_spec()
                        && call_ensures(M::has_converged, (&run[i].0, x, &eval), false)
                        && mut_ref_current(asked) == run[i].0 && #[trigger] call_ensures(
                        M::compute_direction,
                        (asked, x, &eval),
                        Ok::<Vec<Floating>, SolverError>(direction),
                    ) && mut_ref_current(moved) == mut_ref_future(asked) && mut_ref_future(moved)
                        == run[i + 1].0 && mut_ref_current(search) == run[i].2 && mut_ref_future(
                        search,
                    ) == run[i + 1].2 && #[trigger] call_ensures(
                        <M as LineSearchSolver<LS, O>>::update_next_iterate,
                        (moved, x, search, &eval, &oracle, &direction, max_iter_line_search),
                        Ok::<Vec<Floating>, SolverError>(next),
                    ) && next@ == run[i + 1].1,
                forall|x: &Vec<Floating>| oracle.requires((x,)),
                callback matches Some(cb) ==> forall|s: &Solver<M>| cb.requires((s,)),
                self.state == SolverState::Running,
                self.k <= max_iter_solver,
                self.k == 0 ==> {
                    &&& self.point() == old(self).point()
                    &&& self.method_spec() == old(self).method_spec()
                    &&& *line_search == *old(line_search)
                },
                self.k > 0 ==> !old(self).out_of_domain(&oracle) && !old(self).surely_converged_here(
                    &oracle,
                ),
            decreases max_iter_solver - self.k,
        {
            let ghost before = *self;
            let ghost earlier = run;
            let outcome = self.step(line_search, &oracle, max_iter_solver, max_iter_line_search);
            proof {
                if outcome == Some(StepOutcome::Advanced) {
                    run = earlier.push((self.method_spec(), self.point(), *line_search));
                    assert forall|i: int| #![trigger run[i]] 0 <= i < run.len() - 1 implies exists|
                        asked: &mut M,
                        moved: &mut M,
                        search: &mut LS,
                        x: &Vec<Floating>,
                        eval: FuncEvalMultivariate,
                        direction: Vec<Floating>,
                        next: Vec<Floating>,
                |
                        x@ == run[i].1 && Self::answers_at(&oracle, run[i].1, eval) && eval.f.is_finite_spec()
                            && call_ensures(M::has_converged, (&run[i].0, x, &eval), false)
                            && mut_ref_current(asked) == run[i].0 && #[trigger] call_ensures(
                            M::compute_direction,
                            (asked, x, &eval),
                            Ok::<Vec<Floating>, SolverError>(direction),
                        ) && mut_ref_current(moved) == mut_ref_future(asked) && mut_ref_future(moved)
                            == run[i + 1].0 && mut_ref_current(search) == run[i].2 && mut_ref_future(
                            search,
                        ) == run[i + 1].2 && #[trigger] call_ensures(
                            <M as LineSearchSolver<LS, O>>::update_next_iterate,
                            (moved, x, search, &eval, &oracle, &direction, max_iter_line_search),
                            Ok::<Vec<Floating>, SolverError>(next),
                        ) && next@ == run[i + 1].1 by {
                        if i < earlier.len() - 1 {
                            assert(run[i] == earlier[i]);
                            assert(run[i + 1] == earlier[i + 1]);
                        } else {
                            assert(run[i] == earlier.last());
                            assert(run[i + 1] == (self.method_spec(), self.point(), *line_search));
                        }
                    }
                }
                if outcome == Some(StepOutcome::Converged) {
                    let eval = choose|eval: FuncEvalMultivariate|
                        #[trigger] before.answered(&oracle, eval) && eval.f.is_finite_spec()
                            && before.tested(eval, true);
                    assert(self.answered(&oracle, eval));
                    assert(self.tested(eval, true));
                }
                if outcome == Some(StepOutcome::OutOfDomain) {
                    let eval = choose|eval: FuncEvalMultivariate|
                        #[trigger] before.answered(&oracle, eval) && !eval.f.is_finite_spec();
                    assert(self.answered(&oracle, eval));
                    if before.iterations() == 0 {
                        assert(old(self).answered(&oracle, eval));
                    }
                }
                if outcome is Some && outcome != Some(StepOutcome::OutOfDomain) && outcome != Some(
                    StepOutcome::Converged,
                ) {
                    let eval = choose|eval: FuncEvalMultivariate|
                        #[trigger] before.answered(&oracle, eval) && eval.f.is_finite_spec()
                            && before.tested(eval, false);
                    assert(!before.surely_converged_here(&oracle));
                    if before.iterations() == 0 {
                        assert(old(self).answered(&oracle, eval));
                        assert(old(self).tested(eval, false));
                    }
                }
                if let Some(StepOutcome::Failed(e)) = outcome {
                    assert((exists|asked: &mut M, x: &Vec<Floating>, eval: FuncEvalMultivariate|
                        x@ == self.point() && self.answered(&oracle, eval) && eval.f.is_finite_spec()
                            && call_ensures(
                            M::has_converged,
                            (&mut_ref_current(asked), x, &eval),
                            false,
                        ) && mut_ref_future(asked) == self.method_spec() && #[trigger] call_ensures(
                            M::compute_direction,
                            (asked, x, &eval),
                            Err::<Vec<Floating>, SolverError>(e),
                        )) || (exists|
                        asked: &mut M,
                        moved: &mut M,
                        search: &mut LS,
                        x: &Vec<Floating>,
                        eval: FuncEvalMultivariate,
                        direction: Vec<Floating>,
                    |
                        x@ == self.point() && self.answered(&oracle, eval) && eval.f.is_finite_spec()
                            && call_ensures(
                            M::has_converged,
                            (&mut_ref_current(asked), x, &eval),
                            false,
                        ) && #[trigger] call_ensures(
                            M::compute_direction,
                            (asked, x, &eval),
                            Ok::<Vec<Floating>, SolverError>(direction),
                        ) && mut_ref_current(moved) == mut_ref_future(asked) && mut_ref_future(moved)
                            == self.method_spec() && mut_ref_future(search) == *line_search
                            && #[trigger] call_ensures(
                            <M as LineSearchSolver<LS, O>>::update_next_iterate,
                            (moved, x, search, &eval, &oracle, &direction, max_iter_line_search),
                            Err::<Vec<Floating>, SolverError>(e),
                        )));
                }
            }
            if let Some(StepOutcome::Advanced) = outcome {
                if let Some(cb) = callback {
                    cb(&*self);
                }
            }
            match self.state.result() {
                Some(r) => {
                    proof {
                        if let Some(StepOutcome::Failed(e)) = outcome {
                            assert(r == Err::<(), SolverError>(e));
                        }
                        assert(run.last().1 == self.point());
                        assert(r is Ok || self.k == max_iter_solver || self.out_of_domain(&oracle)
                            ==> run.last().0 == self.method_spec() && run.last().2 == *line_search);
                    }
                    return r;
                },
                None => {},
            }
        }
    }
}

} // verus!
