use vstd::prelude::*;
use crate::config::{NesterovProblemKind, NESTEROV_DIM, SGD_DIM};

verus! {

/// One linear constraint row: its residual at a point `x` is
/// `sum_i coeffs[i] * x[i] + offset`. A soft row is satisfied when the
/// residual is at most zero, a hard row when it is exactly zero.
pub struct LinearConstraint {
    pub coeffs: Vec<i64>,
    pub offset: i64,
}

/// Why a constraint structure was refused.
#[derive(Debug, Clone, Copy, PartialEq, Eq, Structural)]
pub enum StructureError {
    /// More than one soft row: the aggregated penalty gradient is exact only
    /// for a single row of each kind.
    TooManySoftRows { count: usize },
    /// More than one hard row, for the same reason.
    TooManyHardRows { count: usize },
    /// A row whose length is not the problem's dimension.
    RowLength { expected: usize, found: usize },
}

/// The fixed linear constraints of a problem over `dim` coordinates.
pub struct ConstraintStructure {
    pub dim: usize,
    pub soft: Vec<LinearConstraint>,
    pub hard: Vec<LinearConstraint>,
}

/// Every row of `rows` has `dim` coefficients.
pub open spec fn rows_have_len(rows: Seq<LinearConstraint>, dim: usize) -> bool {
    forall|j: int| 0 <= j < rows.len() ==> (#[trigger] rows[j]).coeffs@.len() == dim
}

/// The coefficient vector that aggregates the rows of one kind: the single
/// row itself, or zeros when the kind has no row.
pub open spec fn aggregated(rows: Seq<LinearConstraint>, dim: usize) -> Seq<i64> {
    if rows.len() == 0 {
        Seq::new(dim as nat, |i: int| 0i64)
    } else {
        rows[0].coeffs@
    }
}

/// Checks that every row has `dim` coefficients.
fn check_rows(rows: &Vec<LinearConstraint>, dim: usize) -> (r: Result<(), StructureError>)
    ensures
        r is Ok <==> rows_have_len(rows@, dim),
        r matches Err(e) ==> exists|j: int|
            0 <= j < rows.len() && e == (StructureError::RowLength {
                expected: dim,
                found: #[trigger] rows@[j].coeffs.len(),
            }),
{
    let mut j: usize = 0;
    while j < rows.len()
        invariant
            j <= rows.len(),
            forall|k: int| 0 <= k < j ==> (#[trigger] rows@[k]).coeffs@.len() == dim,
        decreases rows.len() - j,
    {
        let found = rows[j].coeffs.len();
        if found != dim {
            return Err(StructureError::RowLength { expected: dim, found });
        }
        j = j + 1;
    }
    Ok(())
}

/// A vector of `n` copies of `v`.
fn filled(n: usize, v: i64) -> (r: Vec<i64>)
    ensures
        r@ == Seq::new(n as nat, |i: int| v),
{
    let mut out: Vec<i64> = Vec::new();
    let mut k: usize = 0;
    while k < n
        invariant
            k <= n,
            out@ == Seq::new(k as nat, |i: int| v),
        decreases n - k,
    {
        out.push(v);
        k = k + 1;
        assert(out@ =~= Seq::new(k as nat, |i: int| v));
    }
    out
}

/// A copy of `v`, element by element.
fn copied(v: &Vec<i64>) -> (r: Vec<i64>)
    ensures
        r@ == v@,
{
    let mut out: Vec<i64> = Vec::new();
    let mut k: usize = 0;
    while k < v.len()
        invariant
            k <= v.len(),
            out@ == v@.subrange(0, k as int),
        decreases v.len() - k,
    {
        out.push(v[k]);
        k = k + 1;
        assert(out@ =~= v@.subrange(0, k as int));
    }
    assert(out@ =~= v@);
    out
}

impl ConstraintStructure {
    /// At most one row of each kind, and every row as long as the point.
    pub open spec fn wf(&self) -> bool {
        &&& self.soft@.len() <= 1
        &&& self.hard@.len() <= 1
        &&& rows_have_len(self.soft@, self.dim)
        &&& rows_have_len(self.hard@, self.dim)
    }

    /// Builds a structure, refusing more than one row of a kind (soft rows are
    /// looked at first) and then any row whose length is not `dim`.
    pub fn new(
        dim: usize,
        soft: Vec<LinearConstraint>,
        hard: Vec<LinearConstraint>,
    ) -> (r: Result<ConstraintStructure, StructureError>)
        ensures
            soft.len() > 1 ==> r == Err::<ConstraintStructure, StructureError>(
                StructureError::TooManySoftRows { count: soft.len() },
            ),
            soft.len() <= 1 && hard.len() > 1 ==> r == Err::<
                ConstraintStructure,
                StructureError,
            >(StructureError::TooManyHardRows { count: hard.len() }),
            soft.len() == 1 && hard.len() <= 1 && soft@[0].coeffs.len() != dim ==> r == Err::<
                ConstraintStructure,
                StructureError,
            >(StructureError::RowLength { expected: dim, found: soft@[0].coeffs.len() }),
            soft.len() <= 1 && hard.len() == 1 && rows_have_len(soft@, dim)
                && hard@[0].coeffs.len() != dim ==> r == Err::<ConstraintStructure, StructureError>(
                StructureError::RowLength { expected: dim, found: hard@[0].coeffs.len() },
            ),
            soft.len() <= 1 && hard.len() <= 1 && rows_have_len(soft@, dim) && rows_have_len(
                hard@,
                dim,
            ) ==> r is Ok,
            r matches Ok(s) ==> s.wf() && s.dim == dim && s.soft@ == soft@ && s.hard@
                == hard@,
    {
        if soft.len() > 1 {
            return Err(StructureError::TooManySoftRows { count: soft.len() });
        }
        if hard.len() > 1 {
            return Err(StructureError::TooManyHardRows { count: hard.len() });
        }
        match check_rows(&soft, dim) {
            Ok(()) => {},
            Err(e) => return Err(e),
        }
        match check_rows(&hard, dim) {
            Ok(()) => {},
            Err(e) => return Err(e),
        }
        Ok(ConstraintStructure { dim, soft, hard })
    }

    /// Number of soft (inequality) constraints.
    pub fn num_soft(&self) -> (r: usize)
        ensures
            r == self.soft@.len(),
    {
        self.soft.len()
    }

    /// Number of hard (equality) constraints.
    pub fn num_hard(&self) -> (r: usize)
        ensures
            r == self.hard@.len(),
    {
        self.hard.len()
    }

    /// The aggregated soft coefficient vector, of length `dim`.
    pub fn soft_coeff_vec(&self) -> (r: Vec<i64>)
        requires
            self.wf(),
        ensures
            r@ == aggregated(self.soft@, self.dim),
            r@.len() == self.dim,
    {
        if self.soft.len() == 0 {
            filled(self.dim, 0)
        } else {
            assert(self.soft@[0].coeffs@.len() == self.dim);
            copied(&self.soft[0].coeffs)
        }
    }

    /// The aggregated hard coefficient vector, of length `dim`.
    pub fn hard_coeff_vec(&self) -> (r: Vec<i64>)
        requires
            self.wf(),
        ensures
            r@ == aggregated(self.hard@, self.dim),
            r@.len() == self.dim,
    {
        if self.hard.len() == 0 {
            filled(self.dim, 0)
        } else {
            assert(self.hard@[0].coeffs@.len() == self.dim);
            copied(&self.hard[0].coeffs)
        }
    }
}

/// A row of two coefficients.
fn pair_row(c0: i64, c1: i64, offset: i64) -> (r: LinearConstraint)
    ensures
        r.coeffs@ == seq![c0, c1],
        r.offset == offset,
{
    let mut coeffs: Vec<i64> = Vec::new();
    coeffs.push(c0);
    coeffs.push(c1);
    assert(coeffs@ =~= seq![c0, c1]);
    LinearConstraint { coeffs, offset }
}

/// The bowl's single soft constraint `x0 + x1 + 100 <= 0`.
pub fn bowl_constraints() -> (r: ConstraintStructure)
    ensures
        r.wf(),
        r.dim == NESTEROV_DIM,
        r.soft@.len() == 1,
        r.soft@[0].coeffs@ == seq![1i64, 1i64],
        r.soft@[0].offset == 100,
        r.hard@.len() == 0,
{
    let mut soft: Vec<LinearConstraint> = Vec::new();
    soft.push(pair_row(1, 1, 100));
    ConstraintStructure { dim: NESTEROV_DIM, soft, hard: Vec::new() }
}

/// The valley's soft constraint `x0 + x1 - 5 <= 0` and hard constraint
/// `x0 - 5 x1 - 2 == 0`.
pub fn valley_constraints() -> (r: ConstraintStructure)
    ensures
        r.wf(),
        r.dim == NESTEROV_DIM,
        r.soft@.len() == 1,
        r.soft@[0].coeffs@ == seq![1i64, 1i64],
        r.soft@[0].offset == -5,
        r.hard@.len() == 1,
        r.hard@[0].coeffs@ == seq![1i64, -5i64],
        r.hard@[0].offset == -2,
{
    let mut soft: Vec<LinearConstraint> = Vec::new();
    soft.push(pair_row(1, 1, -5));
    let mut hard: Vec<LinearConstraint> = Vec::new();
    hard.push(pair_row(1, -5, -2));
    ConstraintStructure { dim: NESTEROV_DIM, soft, hard }
}

/// The valley chain's single hard constraint: the coordinates sum to 1001.
pub fn valley_chain_constraints() -> (r: ConstraintStructure)
    ensures
        r.wf(),
        r.dim == SGD_DIM,
        r.soft@.len() == 0,
        r.hard@.len() == 1,
        r.hard@[0].coeffs@ == Seq::new(SGD_DIM as nat, |i: int| 1i64),
        r.hard@[0].offset == -1001,
{
    let mut hard: Vec<LinearConstraint> = Vec::new();
    hard.push(LinearConstraint { coeffs: filled(SGD_DIM, 1), offset: -1001 });
    ConstraintStructure { dim: SGD_DIM, soft: Vec::new(), hard }
}

/// The constraints of a problem that momentum descent runs on.
pub fn nesterov_constraints(kind: NesterovProblemKind) -> (r: ConstraintStructure)
    ensures
        r.wf(),
        r.dim == NESTEROV_DIM,
        kind == NesterovProblemKind::Bowl ==> r.soft@.len() == 1 && r.soft@[0].coeffs@ == seq![
            1i64,
            1i64,
        ] && r.soft@[0].offset == 100 && r.hard@.len() == 0,
        kind == NesterovProblemKind::Valley ==> r.soft@.len() == 1 && r.soft@[0].coeffs@
            == seq![1i64, 1i64] && r.soft@[0].offset == -5 && r.hard@.len() == 1
            && r.hard@[0].coeffs@ == seq![1i64, -5i64] && r.hard@[0].offset == -2,
{
    match kind {
        NesterovProblemKind::Bowl => bowl_constraints(),
        NesterovProblemKind::Valley => valley_constraints(),
    }
}

} // verus!
