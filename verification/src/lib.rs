//! The deciding half of a toolkit for minimizing smooth functions of several
//! variables, without bounds or in a box.
//!
//! A minimization alternates arithmetic with decisions. This crate holds the
//! decisions, and proves what it says of them: the driver that runs a method
//! until it converges, fails or runs out of iterations; the memory and the
//! stopping rules of the methods; the bookkeeping and the case distinctions
//! of the line searches; and the operations on vectors that only compare,
//! such as the projection into a box. It never adds or multiplies two
//! numbers. A number is an IEEE 754 binary64 bit pattern, which is all that
//! comparing takes; whoever calls the crate does the arithmetic and hands
//! over each number that a decision rests on.
pub mod bounds;
pub mod func_eval;
pub mod line_search;
pub mod newton;
pub mod number;
pub mod online;
pub mod optimization_solver;
pub mod quasi_newton;
pub mod steepest_descent;

pub use bounds::{projected_gradient, BoxedMethod, HasBounds, HasProjectedGradient};
pub use func_eval::{FuncEval, FuncEvalMultivariate, FuncEvalUnivariate, Matrix};
pub use line_search::backtracking::BackTracking;
pub use line_search::backtracking_b::{BackTrackingB, ProjectedBackTracking};
pub use line_search::gll_quadratic::{GLLQuadratic, Rejection};
pub use line_search::morethuente::{Bracket, MoreThuente, StopReason, TrialCase};
pub use line_search::nosearch::NoSearch;
pub use line_search::projected_morethuente::ProjectedMoreThuente;
pub use line_search::{
    CurvatureCondition, LineSearch, SufficientDecreaseCondition, TrialVerdict, Trials,
    WolfeConditions,
};
pub use newton::projected_newton::ProjectedNewton;
pub use newton::{Newton, NewtonDecrement, NewtonStep};
pub use number::{BoxProjection, Floating, InfinityNorm};
pub use online::osgmg::{OnlineDecision, SparsityPattern, OSGMG};
pub use optimization_solver::{
    ComputeDirection, LineSearchSolver, OptimizationSolver, Solver, SolverError, SolverState,
    StepOutcome,
};
pub use quasi_newton::{
    Broyden, BroydenB, QuasiNewton, QuasiNewtonB, BFGS, BFGSB, DFP, DFPB, SR1, SR1B,
};
pub use steepest_descent::coordinate_descent::CoordinateDescent;
pub use steepest_descent::gradient_descent::GradientDescent;
pub use steepest_descent::pnorm_descent::PnormDescent;
pub use steepest_descent::projected_gradient_descent::ProjectedGradientDescent;
pub use steepest_descent::spg::SpectralProjectedGradient;
pub use steepest_descent::SteepestDescent;
