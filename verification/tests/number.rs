use nalgebra::DVector;
use optimization_solvers::bounds::projected_gradient;
use optimization_solvers::func_eval::{FuncEval, FuncEvalMultivariate, FuncEvalUnivariate, Matrix};
use optimization_solvers::number::{
    clamp, BoxProjection, Floating, InfinityNorm, INFINITY_BITS, NEG_INFINITY_BITS,
    NEG_ONE_BITS, ONE_BITS, SIGN_BIT, TENTH_BITS,
};
use optimization_solvers::online::osgmg::{OnlineDecision, SparsityPattern, OSGMG};
use optimization_solvers::optimization_solver::{ComputeDirection, SolverError};
use optimization_solvers::steepest_descent::coordinate_descent::CoordinateDescent;
use optimization_solvers::steepest_descent::gradient_descent::GradientDescent;
use optimization_solvers::steepest_descent::spg::SpectralProjectedGradient;
use optimization_solvers::steepest_descent::{largest_abs, SteepestDescent};

fn fl(x: f64) -> Floating {
    Floating::from_bits(x.to_bits())
}

fn val(x: Floating) -> f64 {
    f64::from_bits(x.to_bits())
}

fn pack(v: &[f64]) -> Vec<Floating> {
    v.iter().map(|x| fl(*x)).collect()
}

fn bits(v: &[Floating]) -> Vec<u64> {
    v.iter().map(|x| x.to_bits()).collect()
}

fn bits_of(v: &[f64]) -> Vec<u64> {
    v.iter().map(|x| x.to_bits()).collect()
}

/// Numbers of every kind: zeros, subnormals, ordinary numbers, infinities and
/// NaNs of both signs.
fn specimens() -> Vec<f64> {
    let mut v = vec![
        0.0,
        -0.0,
        f64::MIN_POSITIVE,
        -f64::MIN_POSITIVE,
        5e-324,
        -5e-324,
        1e-300,
        0.1,
        -0.1,
        0.5,
        1.0,
        -1.0,
        1.0 + f64::EPSILON,
        2.0,
        -2.0,
        47.0,
        180.0,
        -152.0,
        1e300,
        -1e300,
        f64::MAX,
        f64::MIN,
        f64::INFINITY,
        f64::NEG_INFINITY,
        f64::NAN,
        -f64::NAN,
    ];
    v.push(f64::from_bits(0x7FF0_0000_0000_0001));
    v.push(f64::from_bits(0xFFFF_FFFF_FFFF_FFFF));
    v
}

#[test]
fn constants_are_the_numbers_they_name() {
    assert_eq!(ONE_BITS, 1.0f64.to_bits());
    assert_eq!(NEG_ONE_BITS, (-1.0f64).to_bits());
    assert_eq!(TENTH_BITS, 0.1f64.to_bits());
    assert_eq!(INFINITY_BITS, f64::INFINITY.to_bits());
    assert_eq!(NEG_INFINITY_BITS, f64::NEG_INFINITY.to_bits());
    assert_eq!(SIGN_BIT, (-0.0f64).to_bits());
    assert_eq!(Floating::zero().to_bits(), 0.0f64.to_bits());
    assert_eq!(Floating::one().to_bits(), 1.0f64.to_bits());
    assert_eq!(Floating::infinity().to_bits(), f64::INFINITY.to_bits());
    assert_eq!(Floating::neg_infinity().to_bits(), f64::NEG_INFINITY.to_bits());
    assert_eq!(Floating::from_bits(0x4000_0000_0000_0000).to_bits(), 2.0f64.to_bits());
}

#[test]
fn classification_agrees_with_the_hardware() {
    for a in specimens() {
        let x = fl(a);
        assert_eq!(x.is_nan(), a.is_nan(), "{:?}", a);
        assert_eq!(x.is_infinite(), a.is_infinite(), "{:?}", a);
        assert_eq!(x.is_finite(), a.is_finite(), "{:?}", a);
        assert_eq!(x.is_sign_negative(), a.is_sign_negative(), "{:?}", a);
        assert_eq!(x.abs().to_bits(), a.abs().to_bits(), "{:?}", a);
        assert_eq!(x.neg().to_bits(), (-a).to_bits(), "{:?}", a);
        assert_eq!(x.neg().neg().to_bits(), a.to_bits(), "{:?}", a);
    }
}

#[test]
fn comparisons_agree_with_the_hardware() {
    for a in specimens() {
        for b in specimens() {
            let (x, y) = (fl(a), fl(b));
            assert_eq!(x.lt(y), a < b, "{:?} < {:?}", a, b);
            assert_eq!(x.le(y), a <= b, "{:?} <= {:?}", a, b);
            assert_eq!(x.gt(y), a > b, "{:?} > {:?}", a, b);
            assert_eq!(x.ge(y), a >= b, "{:?} >= {:?}", a, b);
            assert_eq!(x.eq(y), a == b, "{:?} == {:?}", a, b);
        }
    }
}

#[test]
fn max_and_min_ignore_nan() {
    for a in specimens() {
        for b in specimens() {
            let (x, y) = (fl(a), fl(b));
            let (hi, lo) = (val(x.max(y)), val(x.min(y)));
            let (hw_hi, hw_lo) = (a.max(b), a.min(b));
            if a.is_nan() && b.is_nan() {
                assert!(hi.is_nan() && lo.is_nan());
            } else {
                assert!(hi == hw_hi, "max({:?}, {:?}) = {:?}", a, b, hi);
                assert!(lo == hw_lo, "min({:?}, {:?}) = {:?}", a, b, lo);
            }
            // The result is one of the operands, bit for bit, and the left one on a tie.
            assert!(x.max(y).to_bits() == a.to_bits() || x.max(y).to_bits() == b.to_bits());
            assert!(x.min(y).to_bits() == a.to_bits() || x.min(y).to_bits() == b.to_bits());
            if a == b {
                assert_eq!(x.max(y).to_bits(), a.to_bits());
                assert_eq!(x.min(y).to_bits(), a.to_bits());
            }
        }
    }
    assert_eq!(fl(f64::NAN).max(fl(3.0)).to_bits(), 3.0f64.to_bits());
    assert_eq!(fl(3.0).min(fl(f64::NAN)).to_bits(), 3.0f64.to_bits());
}

#[test]
fn box_projection_agrees_with_sup_and_inf() {
    let s = specimens();
    let mut x = vec![];
    let mut l = vec![];
    let mut u = vec![];
    for a in &s {
        for b in &s {
            for c in &s {
                x.push(*a);
                l.push(*b);
                u.push(*c);
            }
        }
    }
    let expected = DVector::from_vec(x.clone())
        .sup(&DVector::from_vec(l.clone()))
        .inf(&DVector::from_vec(u.clone()));
    let got = pack(&x).box_projection(&pack(&l), &pack(&u));
    assert_eq!(got.len(), expected.len());
    for i in 0..got.len() {
        assert_eq!(got[i].to_bits(), expected[i].to_bits(), "x {:?} l {:?} u {:?}", x[i], l[i], u[i]);
        assert_eq!(clamp(fl(x[i]), fl(l[i]), fl(u[i])).to_bits(), expected[i].to_bits());
    }
}

#[test]
fn box_projection_is_idempotent() {
    let s = specimens();
    let mut x = vec![];
    let mut l = vec![];
    let mut u = vec![];
    for a in &s {
        for b in &s {
            for c in &s {
                x.push(fl(*a));
                l.push(fl(*b));
                u.push(fl(*c));
            }
        }
    }
    let once = x.box_projection(&l, &u);
    let twice = once.box_projection(&l, &u);
    assert_eq!(bits(&once), bits(&twice));
}

#[test]
fn box_projection_clamps_each_component() {
    let x = pack(&[-3.0, 0.25, 7.0, -0.0, 2.0]);
    let l = pack(&[-1.0, 0.0, 0.0, 0.0, 2.0]);
    let u = pack(&[1.0, 1.0, 5.0, 1.0, 2.0]);
    assert_eq!(bits(&x.box_projection(&l, &u)), bits_of(&[-1.0, 0.25, 5.0, -0.0, 2.0]));
    let empty: Vec<Floating> = vec![];
    assert!(empty.box_projection(&empty, &empty).is_empty());
    // Bounds the wrong way round: the upper bound wins.
    assert_eq!(val(clamp(fl(0.5), fl(1.0), fl(0.0))), 0.0);
}

#[test]
fn infinity_norm_is_the_largest_absolute_value() {
    let plain = |v: &[f64]| v.iter().fold(0.0f64, |acc, x| acc.max(x.abs()));
    let cases: Vec<Vec<f64>> = vec![
        vec![],
        vec![0.0],
        vec![-0.0],
        vec![1.0, -3.0, 2.0],
        vec![f64::NAN],
        vec![f64::NAN, -2.0, f64::NAN],
        vec![1.0, f64::NEG_INFINITY],
        vec![-1e-320, 5e-324],
        specimens(),
    ];
    for c in cases {
        assert_eq!(pack(&c).infinity_norm().to_bits(), plain(&c).to_bits(), "{:?}", c);
    }
    assert_eq!(val(pack(&[1.0, -3.0, 2.0]).infinity_norm()), 3.0);
    assert_eq!(pack(&[]).infinity_norm().to_bits(), 0.0f64.to_bits());
}

#[test]
fn largest_abs_starts_from_negative_infinity() {
    let plain = |v: &[f64]| v.iter().fold(f64::NEG_INFINITY, |acc, x| x.abs().max(acc));
    let cases: Vec<Vec<f64>> = vec![
        vec![],
        vec![f64::NAN],
        vec![0.0, -0.0],
        vec![1.0, -3.0, 2.0],
        vec![f64::NAN, -2.0],
        specimens(),
    ];
    for c in cases {
        assert_eq!(largest_abs(&pack(&c)).to_bits(), plain(&c).to_bits(), "{:?}", c);
    }
    assert_eq!(val(largest_abs(&pack(&[]))), f64::NEG_INFINITY);
    // No gradient at all is small against every tolerance above negative infinity.
    let gd = GradientDescent::new(fl(1e-6), pack(&[1.0]));
    assert!(gd.has_converged(&FuncEval::new(fl(0.0), pack(&[]))));
    assert!(gd.has_converged(&FuncEval::new(fl(0.0), pack(&[1e-7, -9e-7]))));
    assert!(!gd.has_converged(&FuncEval::new(fl(0.0), pack(&[1e-7, -1e-6]))));
    assert_eq!(val(*gd.grad_tol()), 1e-6);
    assert_eq!(bits(gd.x0()), bits_of(&[1.0]));
}

#[test]
fn projected_gradient_clears_what_pushes_against_a_bound() {
    let plain = |x: &[f64], g: &[f64], l: &[f64], u: &[f64]| -> Vec<f64> {
        let mut proj_grad = g.to_vec();
        for (i, x) in x.iter().enumerate() {
            if (x == &l[i] && proj_grad[i] > 0.0) || (x == &u[i] && proj_grad[i] < 0.0) {
                proj_grad[i] = 0.0;
            }
        }
        proj_grad
    };
    let x = [0.0, 0.0, 1.0, 1.0, 0.5, -0.0, 0.0, f64::NAN];
    let g = [2.0, -2.0, 3.0, -3.0, 4.0, 1.0, f64::NAN, 1.0];
    let l = [0.0, 0.0, 0.0, 0.0, 0.0, 0.0, 0.0, 0.0];
    let u = [1.0, 1.0, 1.0, 1.0, 1.0, 1.0, 1.0, 1.0];
    let got = projected_gradient(&pack(&x), &pack(&g), &pack(&l), &pack(&u));
    assert_eq!(bits(&got), bits_of(&plain(&x, &g, &l, &u)));
    assert_eq!(bits(&got[..6]), bits_of(&[0.0, -2.0, 3.0, 0.0, 4.0, 0.0]));
    // Components of the gradient beyond the iterate are kept.
    let got = projected_gradient(&pack(&[0.0]), &pack(&[1.0, 5.0]), &pack(&[0.0]), &pack(&[1.0]));
    assert_eq!(bits(&got), bits_of(&[0.0, 5.0]));
    let s = specimens();
    for a in &s {
        for b in &s {
            for c in &s {
                let got = projected_gradient(&pack(&[*a]), &pack(&[*b]), &pack(&[*c]), &pack(&[1.0]));
                assert_eq!(bits(&got), bits_of(&plain(&[*a], &[*b], &[*c], &[1.0])));
                let got = projected_gradient(&pack(&[*a]), &pack(&[*b]), &pack(&[-1.0]), &pack(&[*c]));
                assert_eq!(bits(&got), bits_of(&plain(&[*a], &[*b], &[-1.0], &[*c])));
            }
        }
    }
}

#[test]
fn coordinate_descent_picks_the_steepest_coordinate() {
    let plain = |g: &[f64]| -> Vec<f64> {
        let (position, max_value) = g.iter().enumerate().fold((0, 0.0), |(idx, max), (i, g)| {
            if g.abs() > max {
                (i, g.abs())
            } else {
                (idx, max)
            }
        });
        let mut direction_k = vec![0.0; g.len()];
        direction_k[position] = if g[position] < 0.0 { 1.0 } else { -1.0 };
        if max_value > 0.0 {
            assert_eq!(direction_k[position], -f64::signum(g[position]));
        }
        direction_k
    };
    let cases: Vec<Vec<f64>> = vec![
        vec![1.0],
        vec![2.0, 4.0, 0.0],
        vec![2.0, -4.0, 4.0],
        vec![0.0, 0.0],
        vec![-0.0, f64::NAN, 0.0],
        vec![f64::NAN, -1.0],
        vec![3.0, f64::INFINITY, f64::NEG_INFINITY],
        specimens(),
    ];
    for c in cases {
        let mut cd = CoordinateDescent::new(fl(1e-6), pack(&c));
        let eval: FuncEvalMultivariate = FuncEval::new(fl(0.0), pack(&c));
        let d = cd.compute_direction(&pack(&c), &eval).unwrap();
        assert_eq!(bits(&d), bits_of(&plain(&c)), "{:?}", c);
    }
    // Against a negative slope the step is forward, against a positive one backward.
    let mut cd = CoordinateDescent::new(fl(1e-6), pack(&[1.0, 1.0]));
    let eval: FuncEvalMultivariate = FuncEval::new(fl(0.0), pack(&[1.0, -3.0]));
    let d = cd.compute_direction(&pack(&[1.0, 1.0]), &eval).unwrap();
    assert_eq!(bits(&d), bits_of(&[0.0, 1.0]));
    let eval: FuncEvalMultivariate = FuncEval::new(fl(0.0), pack(&[1.0, 3.0]));
    let d = cd.compute_direction(&pack(&[1.0, 1.0]), &eval).unwrap();
    assert_eq!(bits(&d), bits_of(&[0.0, -1.0]));
    let eval: FuncEvalMultivariate = FuncEval::new(fl(0.0), pack(&[2.0, -4.0, 4.0]));
    let d = cd.compute_direction(&pack(&[1.0, 1.0, 1.0]), &eval).unwrap();
    assert_eq!(bits(&d), bits_of(&[0.0, 1.0, 0.0]));
    assert_eq!(CoordinateDescent::steepest(&pack(&[2.0, -4.0, 4.0])), 1);
    assert_eq!(CoordinateDescent::steepest(&pack(&[0.0, 0.0])), 0);
    let mut cd = CoordinateDescent::new(fl(1e-6), vec![]);
    let d = cd.compute_direction(&vec![], &FuncEval::new(fl(0.0), vec![])).unwrap();
    assert!(d.is_empty());
}

#[test]
fn gradient_descent_goes_against_the_gradient() {
    let g = [1.5, -0.0, 0.0, -2.0, f64::INFINITY];
    let mut gd = GradientDescent::new(fl(1e-6), pack(&g));
    let d: Result<Vec<Floating>, SolverError> = gd.compute_direction(&pack(&g), &FuncEval::new(fl(0.0), pack(&g)));
    assert_eq!(bits(&d.unwrap()), bits_of(&[-1.5, 0.0, -0.0, 2.0, f64::NEG_INFINITY]));
}

#[test]
fn steepest_descent_holds_the_next_iterate_to_its_bounds() {
    let next = [-3.0, 0.5, 3.0, f64::NAN];
    let l = [-1.0, 0.0, 0.0, 0.0];
    let u = [1.0, 1.0, 1.0, 1.0];
    let dv = |v: &[f64]| DVector::from_vec(v.to_vec());
    let plain = SteepestDescent::new(fl(1e-6), pack(&next), GradientDescent::new(fl(1e-6), vec![]));
    assert!(!plain.is_bounded());
    assert_eq!(bits(&plain.project_next_iterate(pack(&next))), bits_of(&next));

    let lower = SteepestDescent::new(fl(1e-6), pack(&next), GradientDescent::new(fl(1e-6), vec![]))
        .with_lower_bound(pack(&l));
    assert!(lower.is_bounded());
    let expected = dv(&next).sup(&dv(&l));
    assert_eq!(bits(&lower.project_next_iterate(pack(&next))), bits_of(expected.as_slice()));

    let upper = SteepestDescent::new(fl(1e-6), pack(&next), GradientDescent::new(fl(1e-6), vec![]))
        .with_upper_bound(pack(&u));
    let expected = dv(&next).inf(&dv(&u));
    assert_eq!(bits(&upper.project_next_iterate(pack(&next))), bits_of(expected.as_slice()));

    let mut both = SteepestDescent::new(fl(1e-6), pack(&next), GradientDescent::new(fl(1e-6), vec![]))
        .with_upper_bound(pack(&u))
        .with_lower_bound(pack(&l));
    let expected = dv(&next).sup(&dv(&l)).inf(&dv(&u));
    assert_eq!(bits(&both.project_next_iterate(pack(&next))), bits_of(expected.as_slice()));

    // Without a bound the gradient decides; with one, the projected gradient does.
    let eval: FuncEvalMultivariate = FuncEval::new(fl(0.0), pack(&[1.0, 1.0, -1.0, 0.0]));
    assert!(!plain.has_converged(&pack(&next), &eval));
    let small: FuncEvalMultivariate = FuncEval::new(fl(0.0), pack(&[1e-9, -1e-9, 0.0, 0.0]));
    assert!(plain.has_converged(&pack(&next), &small));
    // On the lower bound a positive slope is cleared, on the upper bound a negative one.
    let x = [-1.0, 0.5, 1.0, 0.5];
    let pg = both.projected_gradient(&pack(&x), &pack(&[3.0, 1e-9, -3.0, -1e-9]));
    assert_eq!(bits(&pg), bits_of(&[0.0, 1e-9, 0.0, -1e-9]));
    let pushing: FuncEvalMultivariate = FuncEval::new(fl(0.0), pack(&[3.0, 1e-9, -3.0, -1e-9]));
    assert!(both.has_converged(&pack(&x), &pushing));
    let pulling: FuncEvalMultivariate = FuncEval::new(fl(0.0), pack(&[-3.0, 1e-9, 3.0, -1e-9]));
    assert!(!both.has_converged(&pack(&x), &pulling));
    assert_eq!(
        bits(&lower.projected_gradient(&pack(&x), &pack(&[3.0, 1.0, -3.0, -1.0]))),
        bits_of(&[0.0, 1.0, -3.0, -1.0])
    );
    assert_eq!(
        bits(&upper.projected_gradient(&pack(&x), &pack(&[3.0, 1.0, -3.0, -1.0]))),
        bits_of(&[3.0, 1.0, 0.0, -1.0])
    );
    assert_eq!(
        bits(&plain.projected_gradient(&pack(&x), &pack(&[3.0, 1.0, -3.0, -1.0]))),
        bits_of(&[3.0, 1.0, -3.0, -1.0])
    );
    let d = both.compute_direction(&pack(&[0.0, 0.0]), &FuncEval::new(fl(0.0), pack(&[1.0, 1.0]))).unwrap();
    assert_eq!(bits(&d), bits_of(&[-1.0, -1.0]));
}

#[test]
fn spectral_scalar_is_safeguarded() {
    let clamp = |x: f64, lo: f64, hi: f64| x.min(hi).max(lo);
    let new = |inverse_norm: f64| {
        SpectralProjectedGradient::new(
            fl(1e-6),
            pack(&[5.0, -5.0]),
            fl(inverse_norm),
            pack(&[0.0, 0.0]),
            pack(&[1.0, 1.0]),
        )
    };
    let spg = new(0.25);
    assert_eq!(bits(spg.x0()), bits_of(&[1.0, 0.0]));
    assert_eq!(val(*spg.lambda()), 0.25);
    assert_eq!(val(*spg.lambda_min()), 1e-3);
    assert_eq!(val(*spg.lambda_max()), 1e3);
    assert_eq!(val(*new(1e-9).lambda()), 1e-3);
    assert_eq!(val(*new(f64::INFINITY).lambda()), 1e3);
    assert_eq!(val(*new(f64::NAN).lambda()), 1e3);

    let mut spg = new(0.25).with_lambdas(fl(0.5), fl(2.0));
    assert_eq!(val(*spg.lambda()), 0.25);
    for (sy, ratio) in [(1.0, 1.5), (1.0, 0.1), (1.0, 9.0), (0.0, 1.5), (-1.0, 1.5), (f64::NAN, 1.5), (1.0, f64::NAN)] {
        spg.update_lambda(fl(sy), fl(ratio));
        let expected = if sy <= 0. { 2.0 } else { clamp(ratio, 0.5, 2.0) };
        assert_eq!(val(*spg.lambda()), expected, "sy {:?} ratio {:?}", sy, ratio);
    }
    spg.update_lambda(fl(2.0), fl(1.25));
    assert_eq!(val(*spg.lambda()), 1.25);
    spg.update_lambda(fl(-2.0), fl(1.25));
    assert_eq!(val(*spg.lambda()), 2.0);
}

#[test]
fn evaluations_carry_their_hessian() {
    let mut eval: FuncEvalMultivariate = FuncEval::new(fl(2.0), pack(&[1.0, -1.0]));
    assert_eq!(val(*eval.f()), 2.0);
    assert_eq!(bits(eval.g()), bits_of(&[1.0, -1.0]));
    assert!(eval.hessian().is_none());
    eval = eval.with_hessian(Matrix::identity(2));
    assert_eq!(bits(eval.hessian().as_ref().unwrap().as_vec()), bits_of(&[1.0, 0.0, 0.0, 1.0]));
    let h = eval.take_hessian();
    assert!(eval.hessian().is_none());
    assert_eq!((h.nrows(), h.ncols()), (2, 2));
    assert_eq!(val(*eval.f()), 2.0);

    let from: FuncEvalMultivariate = (fl(3.0), pack(&[4.0])).into();
    assert_eq!(val(*from.f()), 3.0);
    assert_eq!(bits(from.g()), bits_of(&[4.0]));
    assert!(from.hessian().is_none());
    let one: FuncEvalUnivariate = FuncEval::new(fl(1.0), fl(-2.0));
    assert_eq!(val(*one.g()), -2.0);
}

#[test]
fn matrices_are_stored_column_after_column() {
    let m = Matrix::from_vec(2, 3, pack(&[1.0, 2.0, 3.0, 4.0, 5.0, 6.0])).unwrap();
    assert_eq!((m.nrows(), m.ncols()), (2, 3));
    let dense = nalgebra::DMatrix::from_iterator(2, 3, m.as_vec().iter().map(|x| val(*x)));
    assert_eq!(dense[(1, 0)], 2.0);
    assert_eq!(dense[(0, 2)], 5.0);
    for i in 0..2 {
        for j in 0..3 {
            assert_eq!(val(m.get(i, j)), dense[(i, j)]);
        }
    }
    assert!(Matrix::from_vec(2, 3, pack(&[1.0])).is_none());
    assert!(Matrix::from_vec(usize::MAX, 2, vec![]).is_none());
    assert!(Matrix::from_vec(0, 5, vec![]).is_some());
    let id = Matrix::identity(3);
    let dense = nalgebra::DMatrix::from_iterator(3, 3, id.as_vec().iter().map(|x| val(*x)));
    assert_eq!(dense, nalgebra::DMatrix::<f64>::identity(3, 3));
    assert_eq!(bits(id.duplicate().as_vec()), bits(id.as_vec()));
    assert!(Matrix::identity(0).as_vec().is_empty());
}

#[test]
fn online_method_keeps_the_better_point() {
    assert_eq!(OSGMG::decide(&fl(2.0), &fl(1.0), &fl(1e-6)), OnlineDecision { moves: true, stops: false });
    assert_eq!(OSGMG::decide(&fl(1.0), &fl(1.0), &fl(1e-6)), OnlineDecision { moves: false, stops: false });
    assert_eq!(OSGMG::decide(&fl(1e-7), &fl(1.0), &fl(1e-6)), OnlineDecision { moves: false, stops: true });
    assert_eq!(OSGMG::decide(&fl(f64::NAN), &fl(1.0), &fl(1e-6)), OnlineDecision { moves: false, stops: false });
    match SparsityPattern::default_diagonal(3) {
        SparsityPattern::Diagonal(p) => assert_eq!(bits(&p), bits_of(&[1.0, 1.0, 1.0])),
        SparsityPattern::Normal(_) => panic!("a diagonal pattern was asked for"),
    }
    match SparsityPattern::default_normal(2) {
        SparsityPattern::Normal(p) => {
            assert_eq!((p.nrows(), p.ncols()), (2, 2));
            assert_eq!(bits(p.as_vec()), bits_of(&[1.0, 1.0, 1.0, 1.0]));
        }
        SparsityPattern::Diagonal(_) => panic!("a full pattern was asked for"),
    }
    assert!(matches!(SparsityPattern::new_diagonal(pack(&[2.0])), SparsityPattern::Diagonal(_)));
    assert!(matches!(SparsityPattern::new_normal(Matrix::identity(1)), SparsityPattern::Normal(_)));
}
