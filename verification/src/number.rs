//! Scalars and the order-only operations on vectors of them.
//!
//! A scalar is an IEEE 754 binary64 number held by its bit pattern. This crate
//! never adds or multiplies scalars: it classifies them, compares them, flips
//! their sign and selects among them, all of which are exact operations on the
//! bit pattern. Arithmetic is the caller's business.
use vstd::arithmetic::power2::{
    lemma2_to64_rest, lemma_pow2_adds, lemma_pow2_pos, lemma_pow2_strictly_increases,
    lemma_pow2_unfold, pow2,
};
use vstd::prelude::*;

verus! {

/// The sign bit of a binary64 bit pattern.
pub const SIGN_BIT: u64 = 0x8000_0000_0000_0000;

/// The bit pattern of positive infinity; every pattern whose magnitude is
/// larger is a NaN.
pub const INFINITY_BITS: u64 = 0x7FF0_0000_0000_0000;

/// The bit pattern of negative infinity.
pub const NEG_INFINITY_BITS: u64 = 0xFFF0_0000_0000_0000;

/// The bit pattern of `1.0`.
pub const ONE_BITS: u64 = 0x3FF0_0000_0000_0000;

/// The bit pattern of `-1.0`.
pub const NEG_ONE_BITS: u64 = 0xBFF0_0000_0000_0000;

/// The number of fraction patterns in one binade, two to the power 52: the
/// magnitude of a bit pattern is its exponent field times this, plus its
/// fraction field.
pub const FRACTION_RANGE: u64 = 0x0010_0000_0000_0000;

/// The bit pattern of the binary64 number nearest to `0.1`.
pub const TENTH_BITS: u64 = 0x3FB9_9999_9999_999A;

/// An IEEE 754 binary64 number, held by its bit pattern.
#[derive(Clone, Copy, Debug)]
pub struct Floating {
    pub bits: u64,
}

impl Floating {
    /// The bit pattern with the sign bit cleared.
    pub open spec fn magnitude(self) -> int {
        if self.bits >= SIGN_BIT {
            self.bits - SIGN_BIT
        } else {
            self.bits as int
        }
    }

    pub open spec fn is_sign_negative_spec(self) -> bool {
        self.bits >= SIGN_BIT
    }

    pub open spec fn is_nan_spec(self) -> bool {
        self.magnitude() > INFINITY_BITS
    }

    pub open spec fn is_infinite_spec(self) -> bool {
        self.magnitude() == INFINITY_BITS
    }

    pub open spec fn is_finite_spec(self) -> bool {
        self.magnitude() < INFINITY_BITS
    }

    /// The place of a number on the extended real line: for numbers that are
    /// not NaN, `a` is less than `b` exactly when `a.key() < b.key()`, and the
    /// two zeros share the key 0.
    pub open spec fn key(self) -> int {
        if self.is_sign_negative_spec() {
            -self.magnitude()
        } else {
            self.magnitude()
        }
    }

    /// IEEE `<`: false as soon as one side is NaN.
    pub open spec fn lt_spec(self, other: Floating) -> bool {
        !self.is_nan_spec() && !other.is_nan_spec() && self.key() < other.key()
    }

    /// IEEE `<=`: false as soon as one side is NaN.
    pub open spec fn le_spec(self, other: Floating) -> bool {
        !self.is_nan_spec() && !other.is_nan_spec() && self.key() <= other.key()
    }

    /// IEEE `==`: false as soon as one side is NaN, true of the two zeros.
    pub open spec fn eq_value(self, other: Floating) -> bool {
        !self.is_nan_spec() && !other.is_nan_spec() && self.key() == other.key()
    }

    pub open spec fn abs_spec(self) -> Floating {
        Floating { bits: self.magnitude() as u64 }
    }

    pub open spec fn neg_spec(self) -> Floating {
        if self.bits >= SIGN_BIT {
            Floating { bits: (self.bits - SIGN_BIT) as u64 }
        } else {
            Floating { bits: (self.bits + SIGN_BIT) as u64 }
        }
    }

    /// The larger of two numbers, NaN ignored: a NaN operand yields the other
    /// operand, and of two equal numbers the left one is kept.
    pub open spec fn max_spec(self, other: Floating) -> Floating {
        if self.is_nan_spec() {
            other
        } else if other.is_nan_spec() {
            self
        } else if self.key() < other.key() {
            other
        } else {
            self
        }
    }

    /// The smaller of two numbers, NaN ignored: a NaN operand yields the other
    /// operand, and of two equal numbers the left one is kept.
    pub open spec fn min_spec(self, other: Floating) -> Floating {
        if self.is_nan_spec() {
            other
        } else if other.is_nan_spec() {
            self
        } else if other.key() < self.key() {
            other
        } else {
            self
        }
    }

    pub open spec fn zero_spec() -> Floating {
        Floating { bits: 0 }
    }

    pub open spec fn one_spec() -> Floating {
        Floating { bits: ONE_BITS }
    }

    pub open spec fn infinity_spec() -> Floating {
        Floating { bits: INFINITY_BITS }
    }

    pub open spec fn neg_infinity_spec() -> Floating {
        Floating { bits: NEG_INFINITY_BITS }
    }

    pub fn from_bits(bits: u64) -> (r: Floating)
        ensures
            r.bits == bits,
    {
        Floating { bits }
    }

    pub fn to_bits(self) -> (r: u64)
        ensures
            r == self.bits,
    {
        self.bits
    }

    /// Positive zero.
    pub fn zero() -> (r: Floating)
        ensures
            r == Floating::zero_spec(),
    {
        Floating { bits: 0 }
    }

    pub fn one() -> (r: Floating)
        ensures
            r == Floating::one_spec(),
    {
        Floating { bits: ONE_BITS }
    }

    pub fn infinity() -> (r: Floating)
        ensures
            r == Floating::infinity_spec(),
    {
        Floating { bits: INFINITY_BITS }
    }

    pub fn neg_infinity() -> (r: Floating)
        ensures
            r == Floating::neg_infinity_spec(),
    {
        Floating { bits: NEG_INFINITY_BITS }
    }

    fn magnitude_bits(self) -> (r: u64)
        ensures
            r == self.magnitude(),
            r < SIGN_BIT,
    {
        if self.bits >= SIGN_BIT {
            self.bits - SIGN_BIT
        } else {
            self.bits
        }
    }

    fn order_key(self) -> (r: i64)
        ensures
            r == self.key(),
    {
        let m: u64 = self.magnitude_bits();
        if self.bits >= SIGN_BIT {
            -(m as i64)
        } else {
            m as i64
        }
    }

    pub fn is_sign_negative(self) -> (r: bool)
        ensures
            r == self.is_sign_negative_spec(),
    {
        self.bits >= SIGN_BIT
    }

    pub fn is_nan(self) -> (r: bool)
        ensures
            r == self.is_nan_spec(),
    {
        self.magnitude_bits() > INFINITY_BITS
    }

    pub fn is_infinite(self) -> (r: bool)
        ensures
            r == self.is_infinite_spec(),
    {
        self.magnitude_bits() == INFINITY_BITS
    }

    pub fn is_finite(self) -> (r: bool)
        ensures
            r == self.is_finite_spec(),
    {
        self.magnitude_bits() < INFINITY_BITS
    }

    pub fn abs(self) -> (r: Floating)
        ensures
            r == self.abs_spec(),
    {
        Floating { bits: self.magnitude_bits() }
    }

    pub fn neg(self) -> (r: Floating)
        ensures
            r == self.neg_spec(),
    {
        if self.bits >= SIGN_BIT {
            Floating { bits: self.bits - SIGN_BIT }
        } else {
            Floating { bits: self.bits + SIGN_BIT }
        }
    }

    pub fn lt(self, other: Floating) -> (r: bool)
        ensures
            r == self.lt_spec(other),
    {
        !self.is_nan() && !other.is_nan() && self.order_key() < other.order_key()
    }

    pub fn le(self, other: Floating) -> (r: bool)
        ensures
            r == self.le_spec(other),
    {
        !self.is_nan() && !other.is_nan() && self.order_key() <= other.order_key()
    }

    pub fn gt(self, other: Floating) -> (r: bool)
        ensures
            r == other.lt_spec(self),
    {
        other.lt(self)
    }

    pub fn ge(self, other: Floating) -> (r: bool)
        ensures
            r == other.le_spec(self),
    {
        other.le(self)
    }

    /// IEEE equality of the two numbers (not of their bit patterns).
    pub fn eq(self, other: Floating) -> (r: bool)
        ensures
            r == self.eq_value(other),
    {
        !self.is_nan() && !other.is_nan() && self.order_key() == other.order_key()
    }

    pub fn max(self, other: Floating) -> (r: Floating)
        ensures
            r == self.max_spec(other),
    {
        if self.is_nan() {
            other
        } else if other.is_nan() {
            self
        } else if self.order_key() < other.order_key() {
            other
        } else {
            self
        }
    }

    pub fn min(self, other: Floating) -> (r: Floating)
        ensures
            r == self.min_spec(other),
    {
        if self.is_nan() {
            other
        } else if other.is_nan() {
            self
        } else if other.order_key() < self.order_key() {
            other
        } else {
            self
        }
    }
}

/// The number that a bit pattern of magnitude `m` denotes in absolute value,
/// counted in units of the smallest positive number, two to the power
/// -1074: the fraction field for a subnormal number, and the fraction field
/// under a leading one, doubled for every binade above the first, for a
/// normal number.
pub open spec fn scaled_magnitude(m: int) -> int {
    let exponent = m / (FRACTION_RANGE as int);
    let fraction = m % (FRACTION_RANGE as int);
    if exponent == 0 {
        fraction
    } else {
        (FRACTION_RANGE + fraction) * pow2((exponent - 1) as nat)
    }
}

impl Floating {
    /// The number that a finite bit pattern denotes, counted in units of two
    /// to the power -1074.
    pub open spec fn scaled_value(self) -> int {
        if self.is_sign_negative_spec() {
            -scaled_magnitude(self.magnitude())
        } else {
            scaled_magnitude(self.magnitude())
        }
    }
}

/// A larger magnitude denotes a larger number.
pub proof fn lemma_scaled_magnitude_increases(m1: int, m2: int)
    requires
        0 <= m1 < m2,
    ensures
        0 <= scaled_magnitude(m1) < scaled_magnitude(m2),
{
    let r = FRACTION_RANGE as int;
    let (e1, f1) = (m1 / r, m1 % r);
    let (e2, f2) = (m2 / r, m2 % r);
    assert(0 <= e1 <= e2 && 0 <= f1 < r && 0 <= f2 < r);
    assert(e1 == e2 ==> f1 < f2);
    if e1 == 0 {
        if e2 > 0 {
            let p2 = pow2((e2 - 1) as nat);
            lemma_pow2_pos((e2 - 1) as nat);
            assert(r <= (r + f2) * p2) by (nonlinear_arith)
                requires
                    p2 >= 1,
                    f2 >= 0,
                    r >= 0,
            ;
        }
    } else {
        let p1 = pow2((e1 - 1) as nat);
        let p2 = pow2((e2 - 1) as nat);
        lemma_pow2_pos((e1 - 1) as nat);
        assert(0 <= (r + f1) * p1) by (nonlinear_arith)
            requires
                p1 >= 1,
                f1 >= 0,
                r >= 0,
        ;
        if e1 == e2 {
            assert((r + f1) * p1 < (r + f2) * p1) by (nonlinear_arith)
                requires
                    p1 >= 1,
                    f1 < f2,
            ;
        } else {
            lemma_pow2_unfold(e1 as nat);
            if e1 < e2 - 1 {
                lemma_pow2_strictly_increases(e1 as nat, (e2 - 1) as nat);
            }
            assert(pow2(e1 as nat) <= p2);
            assert((r + f1) * p1 < (r + f2) * p2) by (nonlinear_arith)
                requires
                    p1 >= 1,
                    0 <= f1 < r,
                    0 <= f2,
                    2 * p1 <= p2,
            ;
        }
    }
}

/// The comparisons of this module are the comparisons of the numbers that
/// the bit patterns denote: of two finite numbers one is less than, at most
/// or equal to the other exactly when what it denotes is.
pub proof fn lemma_order_is_the_order_of_values(a: Floating, b: Floating)
    requires
        a.is_finite_spec(),
        b.is_finite_spec(),
    ensures
        a.lt_spec(b) <==> a.scaled_value() < b.scaled_value(),
        a.le_spec(b) <==> a.scaled_value() <= b.scaled_value(),
        a.eq_value(b) <==> a.scaled_value() == b.scaled_value(),
{
    let (m, n) = (a.magnitude(), b.magnitude());
    assert(scaled_magnitude(0) == 0);
    if m < n {
        lemma_scaled_magnitude_increases(m, n);
    }
    if n < m {
        lemma_scaled_magnitude_increases(n, m);
    }
    if 0 < m {
        lemma_scaled_magnitude_increases(0, m);
    }
    if 0 < n {
        lemma_scaled_magnitude_increases(0, n);
    }
}

/// Every finite number lies strictly between the two infinities, and the
/// infinities are their own absolute value and each other's negation.
pub proof fn lemma_infinities_bound_the_finite(a: Floating)
    requires
        a.is_finite_spec(),
    ensures
        Floating::neg_infinity_spec().lt_spec(a),
        a.lt_spec(Floating::infinity_spec()),
        Floating::infinity_spec().neg_spec() == Floating::neg_infinity_spec(),
        Floating::neg_infinity_spec().abs_spec() == Floating::infinity_spec(),
{
}

/// The constants denote what their names say: zero, one and minus one, the
/// unit being two to the power -1074.
pub proof fn lemma_constants_denote_their_names()
    ensures
        Floating::zero_spec().scaled_value() == 0,
        Floating::one_spec().scaled_value() == pow2(1074),
        (Floating { bits: NEG_ONE_BITS }).scaled_value() == -pow2(1074),
        Floating::one_spec().neg_spec() == (Floating { bits: NEG_ONE_BITS }),
{
    lemma2_to64_rest();
    lemma_pow2_adds(52, 1022);
    assert(ONE_BITS as int / (FRACTION_RANGE as int) == 1023);
    assert(ONE_BITS as int % (FRACTION_RANGE as int) == 0);
    assert(FRACTION_RANGE == pow2(52));
}

/// One component of a box projection: `x` raised to `lower` unless
/// `x >= lower`, then lowered to `upper` unless the result is `<= upper`.
pub open spec fn clamp_spec(x: Floating, lower: Floating, upper: Floating) -> Floating {
    let raised = if lower.le_spec(x) { x } else { lower };
    if raised.le_spec(upper) { raised } else { upper }
}

/// The component-wise projection of `x` into the box `[lower, upper]`.
pub open spec fn box_projection_spec(
    x: Seq<Floating>,
    lower: Seq<Floating>,
    upper: Seq<Floating>,
) -> Seq<Floating> {
    Seq::new(x.len(), |i: int| clamp_spec(x[i], lower[i], upper[i]))
}

/// The largest absolute value in `s`, NaN components ignored, and positive
/// zero for a vector without any number in it.
pub open spec fn infinity_norm_spec(s: Seq<Floating>) -> Floating
    decreases s.len(),
{
    if s.len() == 0 {
        Floating::zero_spec()
    } else {
        infinity_norm_spec(s.drop_last()).max_spec(s.last().abs_spec())
    }
}

/// One component of a box projection.
pub fn clamp(x: Floating, lower: Floating, upper: Floating) -> (r: Floating)
    ensures
        r == clamp_spec(x, lower, upper),
{
    let raised = if lower.le(x) { x } else { lower };
    if raised.le(upper) { raised } else { upper }
}

pub trait BoxProjection: Sized {
    /// Whether the three vectors have one dimension.
    spec fn same_dimension(&self, lower_bound: &Self, upper_bound: &Self) -> bool;

    fn box_projection(&self, lower_bound: &Self, upper_bound: &Self) -> (r: Self)
        requires
            self.same_dimension(lower_bound, upper_bound),
    ;
}

impl BoxProjection for Vec<Floating> {
    open spec fn same_dimension(&self, lower_bound: &Self, upper_bound: &Self) -> bool {
        self.len() == lower_bound.len() && self.len() == upper_bound.len()
    }

    fn box_projection(&self, lower_bound: &Self, upper_bound: &Self) -> (r: Self)
        ensures
            r@ == box_projection_spec(self@, lower_bound@, upper_bound@),
    {
        let n = self.len();
        let mut out: Vec<Floating> = Vec::with_capacity(n);
        let mut i: usize = 0;
        while i < n
            invariant
                n == self.len(),
                n == lower_bound.len(),
                n == upper_bound.len(),
                i <= n,
                out.len() == i,
                forall|j: int|
                    0 <= j < i ==> out[j] == clamp_spec(self[j], lower_bound[j], upper_bound[j]),
            decreases n - i,
        {
            out.push(clamp(self[i], lower_bound[i], upper_bound[i]));
            i += 1;
        }
        out
    }
}

pub trait InfinityNorm {
    fn infinity_norm(&self) -> Floating;
}

impl InfinityNorm for Vec<Floating> {
    fn infinity_norm(&self) -> (r: Floating)
        ensures
            r == infinity_norm_spec(self@),
    {
        let n = self.len();
        let mut acc = Floating::zero();
        let mut i: usize = 0;
        while i < n
            invariant
                n == self.len(),
                i <= n,
                acc == infinity_norm_spec(self@.take(i as int)),
            decreases n - i,
        {
            assert(self@.take(i + 1).drop_last() == self@.take(i as int));
            acc = acc.max(self[i].abs());
            i += 1;
        }
        assert(self@.take(n as int) == self@);
        acc
    }
}

/// Projecting twice is projecting once, for every `x`, `lower` and `upper` of
/// one dimension: NaN components and inverted bounds included.
pub proof fn lemma_box_projection_idempotent(
    x: Seq<Floating>,
    lower: Seq<Floating>,
    upper: Seq<Floating>,
)
    requires
        x.len() == lower.len(),
        x.len() == upper.len(),
    ensures
        box_projection_spec(box_projection_spec(x, lower, upper), lower, upper)
            == box_projection_spec(x, lower, upper),
{
    let once = box_projection_spec(x, lower, upper);
    let twice = box_projection_spec(once, lower, upper);
    assert forall|i: int| 0 <= i < x.len() implies twice[i] == once[i] by {
        lemma_clamp_idempotent(x[i], lower[i], upper[i]);
    }
    assert(twice =~= once);
}

/// Clamping a clamped number changes nothing, bit for bit.
pub proof fn lemma_clamp_idempotent(x: Floating, lower: Floating, upper: Floating)
    ensures
        clamp_spec(clamp_spec(x, lower, upper), lower, upper) == clamp_spec(x, lower, upper),
{
}

/// Where the bounds are numbers in order, the projection lies between them.
pub proof fn lemma_clamp_within_bounds(x: Floating, lower: Floating, upper: Floating)
    requires
        lower.le_spec(upper),
    ensures
        !x.is_nan_spec() ==> lower.le_spec(clamp_spec(x, lower, upper)),
        clamp_spec(x, lower, upper).le_spec(upper),
        lower.le_spec(x) && x.le_spec(upper) ==> clamp_spec(x, lower, upper) == x,
{
}

/// The infinity norm is never NaN and never negative, it bounds the absolute
/// value of every component that is a number, and it is attained: it is the
/// absolute value of a component unless it is positive zero.
pub proof fn lemma_infinity_norm_is_max(s: Seq<Floating>)
    ensures
        !infinity_norm_spec(s).is_nan_spec(),
        !infinity_norm_spec(s).is_sign_negative_spec(),
        forall|i: int|
            0 <= i < s.len() && !s[i].is_nan_spec() ==> s[i].abs_spec().le_spec(
                infinity_norm_spec(s),
            ),
        infinity_norm_spec(s) == Floating::zero_spec() || exists|i: int|
            0 <= i < s.len() && infinity_norm_spec(s) == s[i].abs_spec(),
    decreases s.len(),
{
    if s.len() > 0 {
        let init = s.drop_last();
        lemma_infinity_norm_is_max(init);
        let r = infinity_norm_spec(s);
        assert forall|i: int| 0 <= i < s.len() && !s[i].is_nan_spec() implies s[i].abs_spec().le_spec(
            r,
        ) by {
            if i < s.len() - 1 {
                assert(init[i] == s[i]);
            }
        }
        if r != Floating::zero_spec() {
            if r == s.last().abs_spec() {
                assert(r == s[s.len() - 1].abs_spec());
            } else {
                let j = choose|j: int| 0 <= j < init.len() && infinity_norm_spec(init) == init[j].abs_spec();
                assert(init[j] == s[j]);
                assert(r == s[j].abs_spec());
            }
        }
    }
}

} // verus!
