//! The non-monotone line search of Grippo, Lampariello and Lucidi with a
//! safeguarded quadratic interpolation: its window of past values and its
//! decisions.
use vstd::prelude::*;
use crate::line_search::{trial_verdict_spec, SufficientDecreaseCondition, TrialVerdict, Trials};
use crate::number::{Floating, TENTH_BITS};

verus! {

/// The bit pattern of the default upper safeguard factor, `0.9`.
pub const DEFAULT_SIGMA2_BITS: u64 = 0x3FEC_CCCC_CCCC_CCCD;

/// How the next trial step is found after a rejected one.
#[derive(Clone, Copy, Debug, PartialEq, Eq, Structural)]
pub enum Rejection {
    /// The step is small: halve it.
    Bisect,
    /// The step is large enough for a quadratic interpolation.
    Interpolate,
}

/// The search with its memory: the values of the objective at the last `m`
/// iterates, oldest first.
#[derive(Debug)]
pub struct GLLQuadratic {
    c1: Floating,
    m: usize,
    f_previous: Vec<Floating>,
    sigma1: Floating,
    sigma2: Floating,
}

/// The largest number in `s`, NaN ignored, and negative infinity for no
/// number at all.
pub open spec fn f_max_spec(s: Seq<Floating>) -> Floating
    decreases s.len(),
{
    if s.len() == 0 {
        Floating::neg_infinity_spec()
    } else {
        s.last().max_spec(f_max_spec(s.drop_last()))
    }
}

/// The window after `f` came in: the oldest value leaves a full window.
pub open spec fn window_after(window: Seq<Floating>, m: nat, f: Floating) -> Seq<Floating> {
    if window.len() == m {
        window.drop_first().push(f)
    } else {
        window.push(f)
    }
}

/// Which way a rejected step `t` is shortened: bisection up to `0.1`,
/// interpolation above.
pub open spec fn rejection_spec(t: Floating) -> Rejection {
    if t.le_spec(Floating { bits: TENTH_BITS }) {
        Rejection::Bisect
    } else {
        Rejection::Interpolate
    }
}

/// The step after an interpolation: the interpolated step `t_tmp` where it
/// lies strictly between `lower` and `upper`, half of it otherwise.
pub open spec fn safeguarded_step_spec(
    t_tmp: Floating,
    lower: Floating,
    upper: Floating,
    half_t_tmp: Floating,
) -> Floating {
    if lower.lt_spec(t_tmp) && t_tmp.lt_spec(upper) {
        t_tmp
    } else {
        half_t_tmp
    }
}

impl GLLQuadratic {
    pub closed spec fn c1_spec(&self) -> Floating {
        self.c1
    }

    /// The length of the window.
    pub closed spec fn m_spec(&self) -> nat {
        self.m as nat
    }

    /// The values in the window, oldest first.
    pub closed spec fn window(&self) -> Seq<Floating> {
        self.f_previous@
    }

    pub closed spec fn sigma1_spec(&self) -> Floating {
        self.sigma1
    }

    pub closed spec fn sigma2_spec(&self) -> Floating {
        self.sigma2
    }

    /// The window has room for a value and holds no more than `m`.
    pub open spec fn wf(&self) -> bool {
        1 <= self.m_spec() && self.window().len() <= self.m_spec()
    }

    /// A search that looks back over `m` values; with `m == 1` it is the
    /// monotone Armijo search.
    pub fn new(c1: Floating, m: usize) -> (r: Self)
        requires
            m >= 1,
        ensures
            r.wf(),
            r.c1_spec() == c1,
            r.m_spec() == m,
            r.window() == Seq::<Floating>::empty(),
            r.sigma1_spec() == (Floating { bits: TENTH_BITS }),
            r.sigma2_spec() == (Floating { bits: DEFAULT_SIGMA2_BITS }),
    {
        GLLQuadratic {
            c1,
            m,
            f_previous: Vec::new(),
            sigma1: Floating::from_bits(TENTH_BITS),
            sigma2: Floating::from_bits(DEFAULT_SIGMA2_BITS),
        }
    }

    pub fn with_sigmas(self, sigma1: Floating, sigma2: Floating) -> (r: Self)
        ensures
            r.c1_spec() == self.c1_spec(),
            r.m_spec() == self.m_spec(),
            r.window() == self.window(),
            r.sigma1_spec() == sigma1,
            r.sigma2_spec() == sigma2,
    {
        GLLQuadratic {
            c1: self.c1,
            m: self.m,
            f_previous: self.f_previous,
            sigma1,
            sigma2,
        }
    }

    pub fn m(&self) -> (r: usize)
        ensures
            r == self.m_spec(),
    {
        self.m
    }

    pub fn sigma1(&self) -> (r: Floating)
        ensures
            r == self.sigma1_spec(),
    {
        self.sigma1
    }

    pub fn sigma2(&self) -> (r: Floating)
        ensures
            r == self.sigma2_spec(),
    {
        self.sigma2
    }

    /// The values in the window, oldest first.
    pub fn f_previous(&self) -> (r: &Vec<Floating>)
        ensures
            r@ == self.window(),
    {
        &self.f_previous
    }

    /// Puts the value at a new iterate into the window.
    pub fn append_new_f(&mut self, f: Floating)
        requires
            old(self).wf(),
        ensures
            final(self).wf(),
            final(self).window() == window_after(old(self).window(), old(self).m_spec(), f),
            final(self).c1_spec() == old(self).c1_spec(),
            final(self).m_spec() == old(self).m_spec(),
            final(self).sigma1_spec() == old(self).sigma1_spec(),
            final(self).sigma2_spec() == old(self).sigma2_spec(),
    {
        if self.f_previous.len() == self.m {
            let _ = self.f_previous.remove(0);
            assert(self.f_previous@ == old(self).f_previous@.drop_first());
        }
        self.f_previous.push(f);
    }

    /// The largest value in the window: the reference value of the
    /// non-monotone Armijo test.
    pub fn f_max(&self) -> (r: Floating)
        ensures
            r == f_max_spec(self.window()),
    {
        let n = self.f_previous.len();
        let mut acc = Floating::neg_infinity();
        let mut i: usize = 0;
        while i < n
            invariant
                n == self.f_previous.len(),
                i <= n,
                acc == f_max_spec(self.f_previous@.take(i as int)),
            decreases n - i,
        {
            assert(self.f_previous@.take(i + 1).drop_last() == self.f_previous@.take(i as int));
            acc = self.f_previous[i].max(acc);
            i += 1;
        }
        assert(self.f_previous@.take(n as int) == self.f_previous@);
        acc
    }

    /// The step a search starts from.
    pub fn initial_step(&self) -> (r: Floating)
        ensures
            r == Floating::one_spec(),
    {
        Floating::one()
    }

    /// Counts the trial that was just made and says what to do after it:
    /// `sufficient_decrease` is the outcome of the Armijo test against the
    /// largest value in the window.
    pub fn verdict(&self, trials: &mut Trials, sufficient_decrease: bool) -> (r: TrialVerdict)
        requires
            old(trials).done_spec() < old(trials).budget(),
        ensures
            final(trials).wf(),
            final(trials).done_spec() == old(trials).done_spec() + 1,
            final(trials).budget() == old(trials).budget(),
            r == trial_verdict_spec(
                old(trials).done_spec() as int,
                old(trials).budget() as int,
                sufficient_decrease,
            ),
    {
        trials.judge(sufficient_decrease)
    }

    /// Which way the rejected step `t` is shortened.
    pub fn rejection(t: &Floating) -> (r: Rejection)
        ensures
            r == rejection_spec(*t),
    {
        if t.le(Floating::from_bits(TENTH_BITS)) {
            Rejection::Bisect
        } else {
            Rejection::Interpolate
        }
    }

    /// The step after an interpolation. `t_tmp` is the interpolated step,
    /// `lower` is `sigma1 * t`, `upper` is `sigma2 * t` and `half_t_tmp` is
    /// `0.5 * t_tmp`, for the rejected step `t`.
    pub fn safeguarded_step(t_tmp: Floating, lower: Floating, upper: Floating, half_t_tmp: Floating) -> (r:
        Floating)
        ensures
            r == safeguarded_step_spec(t_tmp, lower, upper, half_t_tmp),
    {
        if t_tmp.gt(lower) && t_tmp.lt(upper) {
            t_tmp
        } else {
            half_t_tmp
        }
    }
}

impl SufficientDecreaseCondition for GLLQuadratic {
    fn c1(&self) -> (r: Floating)
        ensures
            r == self.c1_spec(),
    {
        self.c1
    }
}

/// The reference value bounds every number in the window, it is never NaN,
/// and it is in the window unless it is negative infinity.
pub proof fn lemma_f_max_is_max(s: Seq<Floating>)
    ensures
        forall|i: int| 0 <= i < s.len() && !s[i].is_nan_spec() ==> s[i].le_spec(f_max_spec(s)),
        !f_max_spec(s).is_nan_spec(),
        f_max_spec(s) == Floating::neg_infinity_spec() || exists|i: int|
            0 <= i < s.len() && f_max_spec(s) == s[i],
    decreases s.len(),
{
    if s.len() > 0 {
        let init = s.drop_last();
        lemma_f_max_is_max(init);
        let r = f_max_spec(s);
        assert forall|i: int| 0 <= i < s.len() && !s[i].is_nan_spec() implies s[i].le_spec(r) by {
            if i < s.len() - 1 {
                assert(init[i] == s[i]);
            }
        }
        if r != Floating::neg_infinity_spec() {
            if r == s.last() {
                assert(r == s[s.len() - 1]);
            } else {
                let j = choose|j: int| 0 <= j < init.len() && f_max_spec(init) == init[j];
                assert(init[j] == s[j]);
            }
        }
    }
}

/// With a window of one value the reference value is the value at the
/// iterate: the search is the monotone Armijo search.
pub proof fn lemma_window_of_one_is_monotone(window: Seq<Floating>, f: Floating)
    requires
        window.len() <= 1,
        !f.is_nan_spec(),
    ensures
        window_after(window, 1, f) == seq![f],
        f_max_spec(window_after(window, 1, f)) == f,
{
    let w = window_after(window, 1, f);
    assert(w =~= seq![f]);
    assert(w.drop_last() =~= Seq::<Floating>::empty());
    assert(f_max_spec(w.drop_last()) == Floating::neg_infinity_spec());
    assert(w.last() == f);
}

/// The window never holds more than `m` values, and it holds the newest
/// value last and the values before it in the order they came.
pub proof fn lemma_window_slides(window: Seq<Floating>, m: nat, f: Floating)
    requires
        1 <= m,
        window.len() <= m,
    ensures
        window_after(window, m, f).len() <= m,
        window_after(window, m, f).len() == if window.len() == m {
            m
        } else {
            window.len() + 1
        },
        window_after(window, m, f).last() == f,
        forall|i: int|
            0 <= i < window_after(window, m, f).len() - 1 ==> window_after(window, m, f)[i]
                == window[i + (window.len() + 1 - window_after(window, m, f).len())],
{
}

} // verus!
