//! What an oracle reports at a point, and the matrices it may report.
use vstd::prelude::*;
use crate::number::Floating;

verus! {

/// A rectangular table of scalars, stored column after column.
#[derive(Debug)]
pub struct Matrix {
    nrows: usize,
    ncols: usize,
    data: Vec<Floating>,
}

/// The entries of the identity of order `n`, column after column.
pub open spec fn identity_entries(n: nat) -> Seq<Floating> {
    Seq::new(
        n * n,
        |idx: int|
            if idx / (n as int) == idx % (n as int) {
                Floating::one_spec()
            } else {
                Floating::zero_spec()
            },
    )
}

proof fn lemma_column_major_index(i: int, j: int, n: int)
    requires
        0 <= i < n,
        0 <= j < n,
    ensures
        0 <= j * n + i < n * n,
        (j * n + i) / n == j,
        (j * n + i) % n == i,
{
    assert(j * n + i < n * n) by (nonlinear_arith)
        requires
            0 <= i < n,
            0 <= j < n,
    ;
    assert(0 <= j * n) by (nonlinear_arith)
        requires
            0 <= j,
            0 < n,
    ;
    vstd::arithmetic::div_mod::lemma_fundamental_div_mod_converse(j * n + i, n, j, i);
}

impl Matrix {
    pub closed spec fn nrows_spec(&self) -> nat {
        self.nrows as nat
    }

    pub closed spec fn ncols_spec(&self) -> nat {
        self.ncols as nat
    }

    /// The entries, column after column.
    pub closed spec fn entries(&self) -> Seq<Floating> {
        self.data@
    }

    /// There is one entry for each place.
    pub open spec fn wf(&self) -> bool {
        self.entries().len() == self.nrows_spec() * self.ncols_spec()
    }

    /// The entry in row `i` and column `j`.
    pub open spec fn entry(&self, i: int, j: int) -> Floating {
        self.entries()[j * self.nrows_spec() + i]
    }

    /// The matrix is square and equals its transpose, bit for bit.
    pub open spec fn is_symmetric(&self) -> bool {
        &&& self.wf()
        &&& self.nrows_spec() == self.ncols_spec()
        &&& forall|i: int, j: int|
            0 <= i < self.nrows_spec() && 0 <= j < self.ncols_spec() ==> #[trigger] self.entry(i, j)
                == self.entry(j, i)
    }

    /// The matrix with `nrows` rows and `ncols` columns whose entries are
    /// `data`, column after column; `None` where `data` has another length.
    pub fn from_vec(nrows: usize, ncols: usize, data: Vec<Floating>) -> (r: Option<Self>)
        ensures
            r is Some <==> data.len() == nrows * ncols,
            r matches Some(m) ==> m.wf() && m.nrows_spec() == nrows && m.ncols_spec() == ncols
                && m.entries() == data@,
    {
        match nrows.checked_mul(ncols) {
            Some(len) => {
                if data.len() == len {
                    Some(Matrix { nrows, ncols, data })
                } else {
                    None
                }
            },
            None => None,
        }
    }

    /// The identity of order `n`.
    pub fn identity(n: usize) -> (r: Self)
        requires
            n * n <= usize::MAX,
        ensures
            r.wf(),
            r.nrows_spec() == n,
            r.ncols_spec() == n,
            r.entries() == identity_entries(n as nat),
    {
        let mut data: Vec<Floating> = Vec::new();
        let mut j: usize = 0;
        while j < n
            invariant
                j <= n,
                n * n <= usize::MAX,
                data.len() == j * n,
                forall|idx: int| 0 <= idx < data.len() ==> data[idx] == identity_entries(n as nat)[idx],
            decreases n - j,
        {
            let mut i: usize = 0;
            while i < n
                invariant
                    i <= n,
                    j < n,
                    n * n <= usize::MAX,
                    data.len() == j * n + i,
                    forall|idx: int|
                        0 <= idx < data.len() ==> data[idx] == identity_entries(n as nat)[idx],
                decreases n - i,
            {
                proof {
                    lemma_column_major_index(i as int, j as int, n as int);
                }
                data.push(
                    if i == j {
                        Floating::one()
                    } else {
                        Floating::zero()
                    },
                );
                i += 1;
            }
            assert(j * n + n == (j + 1) * n) by (nonlinear_arith);
            j += 1;
        }
        assert(data@ =~= identity_entries(n as nat));
        Matrix { nrows: n, ncols: n, data }
    }

    pub fn nrows(&self) -> (r: usize)
        ensures
            r == self.nrows_spec(),
    {
        self.nrows
    }

    pub fn ncols(&self) -> (r: usize)
        ensures
            r == self.ncols_spec(),
    {
        self.ncols
    }

    /// The entry in row `i` and column `j`.
    pub fn get(&self, i: usize, j: usize) -> (r: Floating)
        requires
            self.wf(),
            i < self.nrows_spec(),
            j < self.ncols_spec(),
        ensures
            r == self.entry(i as int, j as int),
    {
        assert(0 <= j * self.nrows <= j * self.nrows + i < self.nrows * self.ncols) by (nonlinear_arith)
            requires
                0 <= i < self.nrows,
                0 <= j < self.ncols,
        ;
        let len = self.data.len();
        assert(self.nrows * self.ncols == len);
        self.data[j * self.nrows + i]
    }

    /// The entries, column after column.
    pub fn as_vec(&self) -> (r: &Vec<Floating>)
        ensures
            r@ == self.entries(),
    {
        &self.data
    }

    /// A copy of this matrix.
    pub fn duplicate(&self) -> (r: Self)
        ensures
            r.nrows_spec() == self.nrows_spec(),
            r.ncols_spec() == self.ncols_spec(),
            r.entries() == self.entries(),
    {
        let n = self.data.len();
        let mut data: Vec<Floating> = Vec::with_capacity(n);
        let mut i: usize = 0;
        while i < n
            invariant
                n == self.data.len(),
                i <= n,
                data.len() == i,
                forall|idx: int| 0 <= idx < i ==> data[idx] == self.data[idx],
            decreases n - i,
        {
            data.push(self.data[i]);
            i += 1;
        }
        assert(data@ =~= self.data@);
        Matrix { nrows: self.nrows, ncols: self.ncols, data }
    }
}

/// The identity has ones on its diagonal and zeros elsewhere.
pub proof fn lemma_identity_entries(n: nat, i: int, j: int)
    requires
        0 <= i < n,
        0 <= j < n,
    ensures
        0 <= j * n + i < identity_entries(n).len(),
        identity_entries(n)[j * n + i] == if i == j {
            Floating::one_spec()
        } else {
            Floating::zero_spec()
        },
{
    lemma_column_major_index(i, j, n as int);
}

/// A matrix whose entries are those of the identity is symmetric.
pub proof fn lemma_identity_is_symmetric(m: Matrix, n: nat)
    requires
        m.nrows_spec() == n,
        m.ncols_spec() == n,
        m.entries() == identity_entries(n),
    ensures
        m.is_symmetric(),
{
    assert forall|i: int, j: int| 0 <= i < n && 0 <= j < n implies #[trigger] m.entry(i, j)
        == m.entry(j, i) by {
        lemma_identity_entries(n, i, j);
        lemma_identity_entries(n, j, i);
    }
}

/// The value of the objective at a point, its gradient there and, where the
/// oracle supplies one, its Hessian.
#[derive(Debug)]
pub struct FuncEval<T, H> {
    pub f: Floating,
    pub g: T,
    pub hessian: Option<H>,
}

/// An evaluation of a function of one variable.
pub type FuncEvalUnivariate = FuncEval<Floating, Floating>;

/// An evaluation of a function of several variables.
pub type FuncEvalMultivariate = FuncEval<Vec<Floating>, Matrix>;

impl<T, H> FuncEval<T, H> {
    /// An evaluation without a Hessian.
    pub fn new(f: Floating, g: T) -> (r: Self)
        ensures
            r.f == f,
            r.g == g,
            r.hessian is None,
    {
        FuncEval { f, g, hessian: None }
    }

    pub fn f(&self) -> (r: &Floating)
        ensures
            *r == self.f,
    {
        &self.f
    }

    pub fn g(&self) -> (r: &T)
        ensures
            *r == self.g,
    {
        &self.g
    }

    pub fn hessian(&self) -> (r: &Option<H>)
        ensures
            *r == self.hessian,
    {
        &self.hessian
    }

    /// This evaluation with `hessian` as its Hessian.
    pub fn with_hessian(self, hessian: H) -> (r: Self)
        ensures
            r.f == self.f,
            r.g == self.g,
            r.hessian == Some(hessian),
    {
        FuncEval { f: self.f, g: self.g, hessian: Some(hessian) }
    }

    /// Takes the Hessian out of the evaluation, which has none afterwards.
    pub fn take_hessian(&mut self) -> (r: H)
        requires
            old(self).hessian is Some,
        ensures
            Some(r) == old(self).hessian,
            final(self).hessian is None,
            final(self).f == old(self).f,
            final(self).g == old(self).g,
    {
        self.hessian.take().unwrap()
    }
}

impl<T, H> From<(Floating, T)> for FuncEval<T, H> {
    fn from(value: (Floating, T)) -> (r: Self) {
        let (f, g) = value;
        FuncEval::new(f, g)
    }
}

impl<T, H> vstd::std_specs::convert::FromSpecImpl<(Floating, T)> for FuncEval<T, H> {
    open spec fn obeys_from_spec() -> bool {
        true
    }

    open spec fn from_spec(value: (Floating, T)) -> Self {
        FuncEval { f: value.0, g: value.1, hessian: None }
    }
}

} // verus!
