use optimization_solvers::bounds::HasBounds;
use optimization_solvers::line_search::backtracking::BackTracking;
use optimization_solvers::line_search::backtracking_b::{BackTrackingB, ProjectedBackTracking};
use optimization_solvers::line_search::gll_quadratic::{GLLQuadratic, Rejection};
use optimization_solvers::line_search::morethuente::{
    Bracket, MoreThuente, StopReason, TrialCase,
};
use optimization_solvers::line_search::projected_morethuente::ProjectedMoreThuente;
use optimization_solvers::line_search::{
    CurvatureCondition, SufficientDecreaseCondition, TrialVerdict, Trials, WolfeConditions,
};
use optimization_solvers::number::Floating;

fn fl(x: f64) -> Floating {
    Floating::from_bits(x.to_bits())
}

fn val(x: Floating) -> f64 {
    f64::from_bits(x.to_bits())
}

fn specimens() -> Vec<f64> {
    vec![
        0.0,
        -0.0,
        5e-324,
        -5e-324,
        1e-200,
        -1e-200,
        0.05,
        0.1,
        0.3,
        -0.3,
        1.0,
        -1.0,
        2.5,
        -2.5,
        1e200,
        -1e200,
        f64::INFINITY,
        f64::NEG_INFINITY,
        f64::NAN,
    ]
}

/// The bracket update as it reads in floating point.
fn update_interval(f_tl: f64, f_t: f64, g_t: f64, tl: &mut f64, t: f64, tu: &mut f64) -> bool {
    if f_t > f_tl {
        *tu = t;
        false
    } else if g_t * (*tl - t) > 0. {
        *tl = t;
        false
    } else if g_t * (*tl - t) < 0. {
        *tu = *tl;
        *tl = t;
        false
    } else {
        true
    }
}

#[test]
fn default_parameters() {
    let mt = MoreThuente::default();
    assert_eq!(val(mt.c1()), 1e-4);
    assert_eq!(val(mt.c2()), 0.9);
    assert_eq!(val(*mt.t_min()), 0.0);
    assert_eq!(val(*mt.t_max()), f64::INFINITY);
    assert_eq!(val(*mt.delta_min()), 0.58333333);
    assert_eq!(val(*mt.delta()), 0.66);
    assert_eq!(val(*mt.delta_max()), 1.1);
    let b = mt.initial_bracket();
    assert_eq!((val(b.t), val(b.tl), val(b.tu)), (1.0, 0.0, f64::INFINITY));
    assert!(!b.use_modified_updating && !b.interval_converged);
    assert_eq!(b.trials, 0);
    assert!(b.budget_spent(0) && !b.budget_spent(1));

    let mt = mt.with_t_min(fl(2.0)).with_t_max(fl(8.0)).with_deltas(fl(0.1), fl(0.2), fl(0.3));
    assert_eq!(val(mt.initial_bracket().t), 2.0);
    assert_eq!((val(*mt.delta_min()), val(*mt.delta()), val(*mt.delta_max())), (0.1, 0.2, 0.3));
    let mt = mt.with_t_min(fl(0.0)).with_t_max(fl(0.5));
    assert_eq!(val(mt.initial_bracket().t), 0.5);
    let mt = mt.with_c1(fl(0.2)).with_c2(fl(0.5));
    assert_eq!((val(mt.c1()), val(mt.c2())), (0.2, 0.5));

    let gll = GLLQuadratic::new(fl(1e-4), 10);
    assert_eq!((val(gll.sigma1()), val(gll.sigma2()), gll.m()), (0.1, 0.9, 10));
    assert_eq!(val(gll.c1()), 1e-4);
    let gll = gll.with_sigmas(fl(0.2), fl(0.8));
    assert_eq!((val(gll.sigma1()), val(gll.sigma2())), (0.2, 0.8));
    assert_eq!(val(gll.initial_step()), 1.0);

    let bt = BackTracking::new(fl(1e-4), fl(0.5));
    assert_eq!((val(bt.c1()), val(bt.beta()), val(bt.initial_step())), (1e-4, 0.5, 1.0));
}

#[test]
fn clamping_a_step_agrees_with_max_and_min() {
    for lo in specimens() {
        for hi in specimens() {
            let mt = MoreThuente::default().with_t_min(fl(lo)).with_t_max(fl(hi));
            for t in specimens() {
                let expected = t.max(lo).min(hi);
                let got = val(mt.clamp_step(fl(t)));
                assert!(got == expected || (got.is_nan() && expected.is_nan()), "{:?} in [{:?}, {:?}]", t, lo, hi);
            }
        }
    }
}

#[test]
fn the_search_stops_for_four_reasons() {
    let b = |t: f64, tl: f64, tu: f64, converged: bool| Bracket {
        t: fl(t),
        tl: fl(tl),
        tu: fl(tu),
        use_modified_updating: false,
        interval_converged: converged,
        trials: 0,
    };
    assert_eq!(MoreThuente::stop_reason(&b(1.0, 0.0, 2.0, false), false), None);
    assert_eq!(MoreThuente::stop_reason(&b(1.0, 0.0, 2.0, false), true), Some(StopReason::StrongWolfe));
    assert_eq!(MoreThuente::stop_reason(&b(1.0, 1.0, 1.0, true), true), Some(StopReason::StrongWolfe));
    assert_eq!(MoreThuente::stop_reason(&b(1.0, 1.0, 1.0, true), false), Some(StopReason::IntervalConverged));
    assert_eq!(MoreThuente::stop_reason(&b(1.0, 1.0, 1.0, false), false), Some(StopReason::AtLowerEnd));
    assert_eq!(MoreThuente::stop_reason(&b(-0.0, 0.0, 2.0, false), false), Some(StopReason::AtLowerEnd));
    assert_eq!(MoreThuente::stop_reason(&b(2.0, 0.0, 2.0, false), false), Some(StopReason::AtUpperEnd));
    assert_eq!(MoreThuente::stop_reason(&b(f64::NAN, f64::NAN, f64::NAN, false), false), None);
    for t in specimens() {
        for tl in specimens() {
            for tu in specimens() {
                let stops = MoreThuente::stop_reason(&b(t, tl, tu, false), false).is_some();
                assert_eq!(stops, t == tl || t == tu);
            }
        }
    }
    let projected = ProjectedMoreThuente::new(vec![fl(0.0)], vec![fl(1.0)])
        .with_t_min(fl(0.5))
        .with_t_max(fl(4.0));
    assert_eq!(projected.stop_reason(&b(1.0, 1.0, 1.0, false), false), None);
    assert_eq!(projected.stop_reason(&b(0.5, 0.0, 1.0, false), false), Some(StopReason::AtLowerEnd));
    assert_eq!(projected.stop_reason(&b(4.0, 0.0, 1.0, false), false), Some(StopReason::AtUpperEnd));
    assert_eq!(projected.stop_reason(&b(4.0, 0.0, 1.0, true), false), Some(StopReason::IntervalConverged));
    assert_eq!(projected.stop_reason(&b(4.0, 0.0, 1.0, true), true), Some(StopReason::StrongWolfe));
    assert_eq!(val(projected.project(&vec![fl(3.0)])[0]), 1.0);
    let projected = projected.with_deltas(fl(0.1), fl(0.2), fl(0.3)).with_c1(fl(0.3)).with_c2(fl(0.6));
    assert_eq!((val(projected.search.c1()), val(projected.search.c2())), (0.3, 0.6));
    assert_eq!(val(*projected.search.delta()), 0.2);
}

#[test]
fn modified_updating_is_entered_once_and_kept() {
    for psi_f in specimens() {
        for phi_g in specimens() {
            for flag in [false, true] {
                let mut b = MoreThuente::default().initial_bracket();
                b.use_modified_updating = flag;
                MoreThuente::enter_modified_updating(&mut b, &fl(psi_f), &fl(phi_g));
                let mut expected = flag;
                if !expected && psi_f <= 0. && phi_g > 0. {
                    expected = true;
                }
                assert_eq!(b.use_modified_updating, expected);
                assert_eq!((val(b.t), val(b.tl), val(b.tu)), (1.0, 0.0, f64::INFINITY));
                assert_eq!(b.select(1, 2), if expected { 1 } else { 2 });
            }
        }
    }
}

#[test]
fn trial_cases_agree_with_the_comparisons_in_floating_point() {
    let s = specimens();
    for f_tl in &s {
        for f_t in &s {
            for g_tl in &s {
                for g_t in &s {
                    let expected = if f_t > f_tl {
                        TrialCase::HigherValue
                    } else if g_t * g_tl < 0. {
                        TrialCase::OppositeSlopes
                    } else if g_t.abs() <= g_tl.abs() {
                        TrialCase::SmallerSlope
                    } else {
                        TrialCase::LargerSlope
                    };
                    let got = MoreThuente::trial_case(
                        &fl(*f_tl),
                        &fl(*f_t),
                        &fl(*g_tl),
                        &fl(*g_t),
                        &fl(g_t * g_tl),
                    );
                    assert_eq!(got, expected);
                }
            }
        }
    }
    // Two slopes of opposite sign whose product underflows to zero are not opposite.
    assert_eq!(
        MoreThuente::trial_case(&fl(1.0), &fl(0.5), &fl(-1e-200), &fl(1e-200), &fl(-1e-200 * 1e-200)),
        TrialCase::SmallerSlope
    );
    assert_eq!(
        MoreThuente::trial_case(&fl(1.0), &fl(0.5), &fl(-1.0), &fl(2.0), &fl(-2.0)),
        TrialCase::OppositeSlopes
    );
    assert_eq!(
        MoreThuente::trial_case(&fl(1.0), &fl(0.5), &fl(-1.0), &fl(-2.0), &fl(2.0)),
        TrialCase::LargerSlope
    );
}

#[test]
fn the_next_trial_is_chosen_as_in_floating_point() {
    let s = specimens();
    for tc in &s {
        for other in &s {
            for at in &s {
                let (tl, t) = (*at, *at);
                // Higher value: cubic if nearer to the lower end, else the midpoint.
                let expected = if (tc - tl).abs() < (other - tl).abs() { *tc } else { 0.5 * (other + tc) };
                let got = MoreThuente::step_higher_value(
                    fl(*tc),
                    fl(tc - tl),
                    fl(other - tl),
                    fl(0.5 * (other + tc)),
                );
                assert_eq!(got.to_bits(), expected.to_bits());
                // Opposite slopes: whichever is farther from the trial.
                let expected = if (tc - t).abs() >= (other - t).abs() { *tc } else { *other };
                let got = MoreThuente::step_opposite_slopes(fl(*tc), fl(*other), fl(tc - t), fl(other - t));
                assert_eq!(got.to_bits(), expected.to_bits());
                // Smaller slope: whichever is nearer, held to the limit.
                for (tl, tu) in [(0.0, 4.0), (4.0, 0.0), (t, f64::INFINITY)] {
                    let delta = 0.66;
                    let t_plus = if (tc - t).abs() < (other - t).abs() { *tc } else { *other };
                    let expected = if t > tl {
                        t_plus.min(t + delta * (tu - t))
                    } else {
                        t_plus.max(t + delta * (tu - t))
                    };
                    let bracket = Bracket {
                        t: fl(t),
                        tl: fl(tl),
                        tu: fl(tu),
                        use_modified_updating: false,
                        interval_converged: false,
                        trials: 0,
                    };
                    let got = val(MoreThuente::step_smaller_slope(
                        &bracket,
                        fl(*tc),
                        fl(*other),
                        fl(tc - t),
                        fl(other - t),
                        fl(t + delta * (tu - t)),
                    ));
                    assert!(got == expected || (got.is_nan() && expected.is_nan()));
                }
            }
        }
    }
    let bracket = Bracket {
        t: fl(1.0),
        tl: fl(0.0),
        tu: fl(2.0),
        use_modified_updating: false,
        interval_converged: false,
        trials: 0,
    };
    // The nearer candidate is 5.0, but the limit 1.66 holds it back.
    let got = MoreThuente::step_smaller_slope(&bracket, fl(5.0), fl(9.0), fl(4.0), fl(8.0), fl(1.66));
    assert_eq!(val(got), 1.66);
    let got = MoreThuente::step_smaller_slope(&bracket, fl(1.2), fl(9.0), fl(0.2), fl(8.0), fl(1.66));
    assert_eq!(val(got), 1.2);
}

#[test]
fn the_bracket_is_updated_as_in_floating_point() {
    let s = specimens();
    for f_tl in &s {
        for f_t in &s {
            for g_t in &s {
                for tl0 in [0.0, 1.0, 3.0, -0.0, f64::NAN] {
                    for t in [0.5, 1.0, 2.0, f64::INFINITY] {
                        let tu0 = 4.0;
                        let (mut tl, mut tu) = (tl0, tu0);
                        let expected = update_interval(*f_tl, *f_t, *g_t, &mut tl, t, &mut tu);
                        let (mut ltl, mut ltu) = (fl(tl0), fl(tu0));
                        let got = MoreThuente::update_interval(
                            &fl(*f_tl),
                            &fl(*f_t),
                            &fl(g_t * (tl0 - t)),
                            &mut ltl,
                            fl(t),
                            &mut ltu,
                        );
                        assert_eq!(got, expected);
                        assert_eq!(ltl.to_bits(), tl.to_bits());
                        assert_eq!(ltu.to_bits(), tu.to_bits());

                        let mut bracket = Bracket {
                            t: fl(9.0),
                            tl: fl(tl0),
                            tu: fl(tu0),
                            use_modified_updating: true,
                            interval_converged: false,
                            trials: 7,
                        };
                        bracket.advance(&fl(*f_tl), &fl(*f_t), &fl(g_t * (tl0 - t)), fl(t));
                        assert_eq!(bracket.t.to_bits(), t.to_bits());
                        assert_eq!(bracket.tl.to_bits(), tl.to_bits());
                        assert_eq!(bracket.tu.to_bits(), tu.to_bits());
                        assert_eq!(bracket.interval_converged, expected);
                        assert!(bracket.use_modified_updating);
                        assert_eq!(bracket.trials, 8);
                    }
                }
            }
        }
    }
    let (mut tl, mut tu) = (fl(0.0), fl(4.0));
    // Higher value at the trial: the trial becomes the upper end.
    assert!(!MoreThuente::update_interval(&fl(1.0), &fl(2.0), &fl(5.0), &mut tl, fl(1.0), &mut tu));
    assert_eq!((val(tl), val(tu)), (0.0, 1.0));
    // Lower value, positive slope product: the trial becomes the lower end.
    assert!(!MoreThuente::update_interval(&fl(1.0), &fl(0.5), &fl(5.0), &mut tl, fl(0.5), &mut tu));
    assert_eq!((val(tl), val(tu)), (0.5, 1.0));
    // Lower value, negative slope product: the ends swap around the trial.
    assert!(!MoreThuente::update_interval(&fl(1.0), &fl(0.5), &fl(-5.0), &mut tl, fl(0.75), &mut tu));
    assert_eq!((val(tl), val(tu)), (0.75, 0.5));
    // Lower value, no slope: nothing moves.
    assert!(MoreThuente::update_interval(&fl(1.0), &fl(0.5), &fl(0.0), &mut tl, fl(0.6), &mut tu));
    assert_eq!((val(tl), val(tu)), (0.75, 0.5));
}

#[test]
fn the_conditions_compare_what_the_caller_computed() {
    let mt = MoreThuente::default();
    for a in specimens() {
        for b in specimens() {
            assert_eq!(mt.sufficient_decrease(&fl(a), &fl(b)), a <= b);
            assert_eq!(mt.curvature_condition(&fl(a), &fl(b)), a >= b);
            assert_eq!(mt.strong_curvature_condition(&fl(a), &fl(b)), a.abs() <= b);
            assert_eq!(
                mt.wolfe_conditions_with_directional_derivative(&fl(a), &fl(b), &fl(b), &fl(a)),
                a <= b && b >= a
            );
            assert_eq!(
                mt.strong_wolfe_conditions_with_directional_derivative(&fl(a), &fl(b), &fl(a), &fl(b)),
                a <= b && a.abs() <= b
            );
            let bt = BackTracking::new(fl(1e-4), fl(0.5));
            assert_eq!(bt.sufficient_decrease(&fl(a), &fl(b)), a <= b);
            assert_eq!(bt.sufficient_decrease_condition(fl(a), fl(b)), a <= b);
        }
    }
}

#[test]
fn verdicts_of_the_shrinking_searches() {
    let after = |done: usize, max_iter: usize| {
        let mut trials = Trials::new(max_iter);
        for _ in 0..done {
            assert_eq!(trials.judge(false), TrialVerdict::ShrinkAndRetry);
        }
        assert_eq!(trials.done(), done);
        assert_eq!(trials.max_iter(), max_iter);
        assert!(trials.remain());
        trials
    };
    assert_eq!(after(0, 3).judge(true), TrialVerdict::Accept);
    assert_eq!(after(2, 3).judge(true), TrialVerdict::Accept);
    assert_eq!(after(0, 3).judge(false), TrialVerdict::ShrinkAndRetry);
    assert_eq!(after(1, 3).judge(false), TrialVerdict::ShrinkAndRetry);
    assert_eq!(after(2, 3).judge(false), TrialVerdict::Exhausted);
    assert_eq!(after(0, 1).judge(false), TrialVerdict::Exhausted);
    assert!(!Trials::new(0).remain());
    let mut trials = Trials::new(2);
    assert_eq!(trials.judge(false), TrialVerdict::ShrinkAndRetry);
    assert_eq!(trials.judge(false), TrialVerdict::Exhausted);
    assert!(!trials.remain());
    assert_eq!(trials.done(), 2);

    let bt = BackTracking::new(fl(1e-4), fl(0.5));
    assert_eq!(bt.verdict(&mut after(0, 5), &fl(1.0), true), TrialVerdict::Accept);
    assert_eq!(bt.verdict(&mut after(0, 5), &fl(1.0), false), TrialVerdict::ShrinkAndRetry);
    // Out of the domain the step shrinks, whatever the Armijo test says, and the trial counts.
    for bad in [f64::NAN, f64::INFINITY, f64::NEG_INFINITY] {
        let mut trials = after(0, 5);
        assert_eq!(bt.verdict(&mut trials, &fl(bad), true), TrialVerdict::ShrinkAndRetry);
        assert_eq!(trials.done(), 1);
        assert_eq!(bt.verdict(&mut after(3, 5), &fl(bad), false), TrialVerdict::ShrinkAndRetry);
        assert_eq!(bt.verdict(&mut after(4, 5), &fl(bad), true), TrialVerdict::Exhausted);
    }
    assert_eq!(bt.verdict(&mut after(4, 5), &fl(1.0), false), TrialVerdict::Exhausted);
    assert_eq!(bt.verdict(&mut after(4, 5), &fl(1.0), true), TrialVerdict::Accept);

    let mut btb: ProjectedBackTracking =
        BackTrackingB::new(fl(1e-4), fl(0.5), vec![fl(0.0), fl(0.0)], vec![fl(1.0), fl(1.0)]);
    assert_eq!(btb.verdict(&mut after(0, 5), &fl(f64::NAN), true), TrialVerdict::ShrinkAndRetry);
    assert_eq!(btb.verdict(&mut after(0, 5), &fl(2.0), true), TrialVerdict::Accept);
    assert_eq!(btb.verdict(&mut after(4, 5), &fl(2.0), false), TrialVerdict::Exhausted);
    assert!(btb.sufficient_decrease_with_bounds(&fl(-1.0), &fl(-0.5)));
    assert!(!btb.sufficient_decrease_condition(&fl(-0.25), &fl(-0.5)));
    assert_eq!((val(btb.c1()), val(btb.beta()), val(btb.initial_step())), (1e-4, 0.5, 1.0));
    let p = btb.project(&vec![fl(-2.0), fl(0.5)]);
    assert_eq!((val(p[0]), val(p[1])), (0.0, 0.5));
    btb.set_lower_bound(vec![fl(-1.0), fl(-1.0)]);
    btb.set_upper_bound(vec![fl(0.25), fl(0.25)]);
    let p = btb.project(&vec![fl(-2.0), fl(0.5)]);
    assert_eq!((val(p[0]), val(p[1])), (-1.0, 0.25));
    assert_eq!(val(btb.lower_bound()[0]), -1.0);
    assert_eq!(val(btb.upper_bound()[1]), 0.25);

    let gll = GLLQuadratic::new(fl(1e-4), 3);
    assert_eq!(gll.verdict(&mut after(0, 2), true), TrialVerdict::Accept);
    assert_eq!(gll.verdict(&mut after(0, 2), false), TrialVerdict::ShrinkAndRetry);
    assert_eq!(gll.verdict(&mut after(1, 2), false), TrialVerdict::Exhausted);
}

#[test]
fn the_window_slides_over_the_last_values() {
    let plain_max = |w: &[f64]| w.iter().fold(f64::NEG_INFINITY, |acc, x| x.max(acc));
    let mut gll = GLLQuadratic::new(fl(1e-4), 3);
    assert!(gll.f_previous().is_empty());
    assert_eq!(val(gll.f_max()), f64::NEG_INFINITY);
    let mut model: Vec<f64> = vec![];
    for f in [5.0, 7.0, 6.0, 1.0, f64::NAN, 0.5, -3.0, 2.0, 2.0, -0.0, 0.0, f64::INFINITY, 1.0, 1.0, 1.0] {
        gll.append_new_f(fl(f));
        if model.len() == 3 {
            model.remove(0);
        }
        model.push(f);
        let window: Vec<u64> = gll.f_previous().iter().map(|x| x.to_bits()).collect();
        assert_eq!(window, model.iter().map(|x| x.to_bits()).collect::<Vec<u64>>());
        assert!(val(gll.f_max()) == plain_max(&model));
    }
    // A window of one value is the monotone search.
    let mut monotone = GLLQuadratic::new(fl(1e-4), 1);
    for f in [5.0, 7.0, 6.0, 1.0] {
        monotone.append_new_f(fl(f));
        assert_eq!(monotone.f_previous().len(), 1);
        assert_eq!(val(monotone.f_max()), f);
    }
    // The window outlives the change of other settings.
    let monotone = monotone.with_sigmas(fl(0.2), fl(0.8));
    assert_eq!(val(monotone.f_max()), 1.0);
}

#[test]
fn rejected_steps_are_bisected_or_interpolated() {
    assert_eq!(GLLQuadratic::rejection(&fl(1.0)), Rejection::Interpolate);
    assert_eq!(GLLQuadratic::rejection(&fl(0.1)), Rejection::Bisect);
    assert_eq!(GLLQuadratic::rejection(&fl(0.1 + 1e-18)), Rejection::Bisect);
    assert_eq!(GLLQuadratic::rejection(&fl(0.10000000000000002)), Rejection::Interpolate);
    assert_eq!(GLLQuadratic::rejection(&fl(0.05)), Rejection::Bisect);
    assert_eq!(GLLQuadratic::rejection(&fl(-1.0)), Rejection::Bisect);
    assert_eq!(GLLQuadratic::rejection(&fl(f64::NAN)), Rejection::Interpolate);
    for t in specimens() {
        let expected = if t <= 0.1 { Rejection::Bisect } else { Rejection::Interpolate };
        assert_eq!(GLLQuadratic::rejection(&fl(t)), expected);
    }
    // For a rejected step of 1 with the default safeguards.
    let step = |t_tmp: f64| val(GLLQuadratic::safeguarded_step(fl(t_tmp), fl(0.1), fl(0.9), fl(t_tmp * 0.5)));
    assert_eq!(step(0.5), 0.5);
    assert_eq!(step(0.1), 0.05);
    assert_eq!(step(0.9), 0.45);
    assert_eq!(step(0.05), 0.025);
    assert_eq!(step(3.0), 1.5);
    assert!(step(f64::NAN).is_nan());
}
