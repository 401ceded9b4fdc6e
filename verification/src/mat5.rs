//! Fixed-size exact linear algebra: 5x5 matrices and 5-vectors of `i64`
//! entries, with a mathematical model over `Seq<Seq<int>>` / `Seq<int>`.
//!
//! The filter formulas are stated over this model; the executable
//! operations carry exact pointwise contracts.

use vstd::prelude::*;

verus! {

/// A 5x5 matrix of exact integer entries, stored row-major.
pub struct Mat5 {
    e: Vec<i64>,
}

/// A 5-dimensional vector of exact integer entries.
pub struct Vec5 {
    e: Vec<i64>,
}

impl View for Mat5 {
    type V = Seq<Seq<int>>;

    closed spec fn view(&self) -> Seq<Seq<int>> {
        Seq::new(5, |i: int| Seq::new(5, |j: int| self.e@[5 * i + j] as int))
    }
}

impl View for Vec5 {
    type V = Seq<int>;

    closed spec fn view(&self) -> Seq<int> {
        Seq::new(5, |i: int| self.e@[i] as int)
    }
}

/// The model of a well-formed 5x5 matrix: five rows of five entries.
pub open spec fn wf5(m: Seq<Seq<int>>) -> bool {
    m.len() == 5 && forall|i: int| 0 <= i < 5 ==> (#[trigger] m[i]).len() == 5
}

/// Every entry of `m` lies in `[-b, b]`.
pub open spec fn bounded5(m: Seq<Seq<int>>, b: int) -> bool {
    forall|i: int, j: int| 0 <= i < 5 && 0 <= j < 5 ==> -b <= #[trigger] m[i][j] <= b
}

/// Every entry of `v` lies in `[-b, b]`.
pub open spec fn boundedv5(v: Seq<int>, b: int) -> bool {
    forall|i: int| 0 <= i < 5 ==> -b <= #[trigger] v[i] <= b
}

/// Elementwise sum.
pub open spec fn madd(a: Seq<Seq<int>>, b: Seq<Seq<int>>) -> Seq<Seq<int>> {
    Seq::new(5, |i: int| Seq::new(5, |j: int| a[i][j] + b[i][j]))
}

/// Elementwise difference.
pub open spec fn msub(a: Seq<Seq<int>>, b: Seq<Seq<int>>) -> Seq<Seq<int>> {
    Seq::new(5, |i: int| Seq::new(5, |j: int| a[i][j] - b[i][j]))
}

/// Transpose.
pub open spec fn mtrans(a: Seq<Seq<int>>) -> Seq<Seq<int>> {
    Seq::new(5, |i: int| Seq::new(5, |j: int| a[j][i]))
}

/// The identity matrix.
pub open spec fn mident() -> Seq<Seq<int>> {
    Seq::new(5, |i: int| Seq::new(5, |j: int| if i == j { 1int } else { 0int }))
}

/// The zero matrix.
pub open spec fn mzero() -> Seq<Seq<int>> {
    Seq::new(5, |i: int| Seq::new(5, |j: int| 0int))
}

/// Entry `(i, j)` of the matrix product `a * b`.
pub open spec fn mul_at(a: Seq<Seq<int>>, b: Seq<Seq<int>>, i: int, j: int) -> int {
    a[i][0] * b[0][j] + a[i][1] * b[1][j] + a[i][2] * b[2][j] + a[i][3] * b[3][j] + a[i][4]
        * b[4][j]
}

/// Matrix product, in the literal operand order `a * b`.
pub open spec fn mmul(a: Seq<Seq<int>>, b: Seq<Seq<int>>) -> Seq<Seq<int>> {
    Seq::new(5, |i: int| Seq::new(5, |j: int| mul_at(a, b, i, j)))
}

/// Entry `i` of the matrix-vector product `a * x`.
pub open spec fn mvmul_at(a: Seq<Seq<int>>, x: Seq<int>, i: int) -> int {
    a[i][0] * x[0] + a[i][1] * x[1] + a[i][2] * x[2] + a[i][3] * x[3] + a[i][4] * x[4]
}

/// Matrix-vector product `a * x`.
pub open spec fn mvmul(a: Seq<Seq<int>>, x: Seq<int>) -> Seq<int> {
    Seq::new(5, |i: int| mvmul_at(a, x, i))
}

/// Elementwise vector sum.
pub open spec fn vadd(x: Seq<int>, y: Seq<int>) -> Seq<int> {
    Seq::new(5, |i: int| x[i] + y[i])
}

/// Elementwise vector difference.
pub open spec fn vsub(x: Seq<int>, y: Seq<int>) -> Seq<int> {
    Seq::new(5, |i: int| x[i] - y[i])
}

impl Mat5 {
    /// Well-formedness of the representation: exactly 25 stored entries.
    pub closed spec fn wf(&self) -> bool {
        self.e@.len() == 25
    }

    /// The model of any matrix value is a well-formed 5x5 grid.
    pub proof fn lemma_view_wf5(&self)
        ensures
            wf5(self@),
    {
        assert forall|i: int| 0 <= i < 5 implies (#[trigger] self@[i]).len() == 5 by {}
    }

    /// Builds a matrix from 25 entries in row-major order.
    pub fn from_vec(e: Vec<i64>) -> (r: Mat5)
        requires
            e@.len() == 25,
        ensures
            r.wf(),
            forall|i: int, j: int|
                0 <= i < 5 && 0 <= j < 5 ==> #[trigger] r@[i][j] == e@[5 * i + j] as int,
    {
        Mat5 { e }
    }

    /// Reads entry `(i, j)`.
    pub fn get(&self, i: usize, j: usize) -> (r: i64)
        requires
            self.wf(),
            i < 5,
            j < 5,
        ensures
            r as int == self@[i as int][j as int],
    {
        self.e[5 * i + j]
    }
}

impl Vec5 {
    /// Well-formedness of the representation: exactly 5 stored entries.
    pub closed spec fn wf(&self) -> bool {
        self.e@.len() == 5
    }

    /// Builds a vector from 5 entries.
    pub fn from_vec(e: Vec<i64>) -> (r: Vec5)
        requires
            e@.len() == 5,
        ensures
            r.wf(),
            forall|i: int| 0 <= i < 5 ==> #[trigger] r@[i] == e@[i] as int,
    {
        Vec5 { e }
    }

    /// Reads entry `i`.
    pub fn get(&self, i: usize) -> (r: i64)
        requires
            self.wf(),
            i < 5,
        ensures
            r as int == self@[i as int],
    {
        self.e[i]
    }
}

/// The 5x5 identity matrix.
pub fn mat_identity() -> (r: Mat5)
    ensures
        r.wf(),
        r@ == mident(),
{
    let mut e: Vec<i64> = Vec::new();
    let mut i: usize = 0;
    while i < 5
        invariant
            i <= 5,
            e@.len() == 5 * i,
            forall|ii: int, jj: int|
                0 <= ii < 5 && 0 <= jj < 5 && 5 * ii + jj < e@.len() ==> #[trigger] e@[5 * ii + jj]
                    as int == (if ii == jj { 1int } else { 0int }),
        decreases 5 - i,
    {
        let mut j: usize = 0;
        while j < 5
            invariant
                i < 5,
                j <= 5,
                e@.len() == 5 * i + j,
                forall|ii: int, jj: int|
                    0 <= ii < 5 && 0 <= jj < 5 && 5 * ii + jj < e@.len() ==> #[trigger] e@[5 * ii
                        + jj] as int == (if ii == jj { 1int } else { 0int }),
            decreases 5 - j,
        {
            e.push(if i == j { 1i64 } else { 0i64 });
            j += 1;
        }
        i += 1;
    }
    let r = Mat5 { e };
    proof {
        assert forall|i: int, j: int| 0 <= i < 5 && 0 <= j < 5 implies #[trigger] r@[i][j]
            == mident()[i][j] by {
            assert(r@[i][j] == r.e@[5 * i + j] as int);
        }
        assert(r@ =~~= mident());
    }
    r
}

/// The 5x5 zero matrix.
pub fn mat_zero() -> (r: Mat5)
    ensures
        r.wf(),
        r@ == mzero(),
{
    let mut e: Vec<i64> = Vec::new();
    let mut k: usize = 0;
    while k < 25
        invariant
            k <= 25,
            e@.len() == k,
            forall|kk: int| 0 <= kk < k ==> #[trigger] e@[kk] as int == 0,
        decreases 25 - k,
    {
        e.push(0i64);
        k += 1;
    }
    let r = Mat5 { e };
    proof {
        assert forall|i: int, j: int| 0 <= i < 5 && 0 <= j < 5 implies #[trigger] r@[i][j]
            == mzero()[i][j] by {
            assert(r@[i][j] == r.e@[5 * i + j] as int);
        }
        assert(r@ =~~= mzero());
    }
    r
}

/// Elementwise matrix sum.
pub fn mat_add(a: &Mat5, b: &Mat5) -> (r: Mat5)
    requires
        a.wf(),
        b.wf(),
        forall|i: int, j: int|
            0 <= i < 5 && 0 <= j < 5 ==> i64::MIN <= #[trigger] (a@[i][j] + b@[i][j])
                <= i64::MAX,
    ensures
        r.wf(),
        r@ == madd(a@, b@),
{
    let mut e: Vec<i64> = Vec::new();
    let mut i: usize = 0;
    while i < 5
        invariant
            a.wf(),
            b.wf(),
            forall|ii: int, jj: int|
                0 <= ii < 5 && 0 <= jj < 5 ==> i64::MIN <= #[trigger] (a@[ii][jj] + b@[ii][jj])
                    <= i64::MAX,
            i <= 5,
            e@.len() == 5 * i,
            forall|ii: int, jj: int|
                0 <= ii < 5 && 0 <= jj < 5 && 5 * ii + jj < e@.len() ==> #[trigger] e@[5 * ii + jj]
                    as int == a@[ii][jj] + b@[ii][jj],
        decreases 5 - i,
    {
        let mut j: usize = 0;
        while j < 5
            invariant
                a.wf(),
                b.wf(),
                forall|ii: int, jj: int|
                    0 <= ii < 5 && 0 <= jj < 5 ==> i64::MIN <= #[trigger] (a@[ii][jj] + b@[ii][jj])
                        <= i64::MAX,
                i < 5,
                j <= 5,
                e@.len() == 5 * i + j,
                forall|ii: int, jj: int|
                    0 <= ii < 5 && 0 <= jj < 5 && 5 * ii + jj < e@.len() ==> #[trigger] e@[5 * ii
                        + jj] as int == a@[ii][jj] + b@[ii][jj],
            decreases 5 - j,
        {
            let x = a.get(i, j);
            let y = b.get(i, j);
            e.push(x + y);
            j += 1;
        }
        i += 1;
    }
    let r = Mat5 { e };
    proof {
        assert forall|i: int, j: int| 0 <= i < 5 && 0 <= j < 5 implies #[trigger] r@[i][j] == madd(
            a@,
            b@,
        )[i][j] by {
            assert(r@[i][j] == r.e@[5 * i + j] as int);
        }
        assert(r@ =~~= madd(a@, b@));
    }
    r
}

/// Elementwise matrix difference.
pub fn mat_sub(a: &Mat5, b: &Mat5) -> (r: Mat5)
    requires
        a.wf(),
        b.wf(),
        forall|i: int, j: int|
            0 <= i < 5 && 0 <= j < 5 ==> i64::MIN <= #[trigger] (a@[i][j] - b@[i][j])
                <= i64::MAX,
    ensures
        r.wf(),
        r@ == msub(a@, b@),
{
    let mut e: Vec<i64> = Vec::new();
    let mut i: usize = 0;
    while i < 5
        invariant
            a.wf(),
            b.wf(),
            forall|ii: int, jj: int|
                0 <= ii < 5 && 0 <= jj < 5 ==> i64::MIN <= #[trigger] (a@[ii][jj] - b@[ii][jj])
                    <= i64::MAX,
            i <= 5,
            e@.len() == 5 * i,
            forall|ii: int, jj: int|
                0 <= ii < 5 && 0 <= jj < 5 && 5 * ii + jj < e@.len() ==> #[trigger] e@[5 * ii + jj]
                    as int == a@[ii][jj] - b@[ii][jj],
        decreases 5 - i,
    {
        let mut j: usize = 0;
        while j < 5
            invariant
                a.wf(),
                b.wf(),
                forall|ii: int, jj: int|
                    0 <= ii < 5 && 0 <= jj < 5 ==> i64::MIN <= #[trigger] (a@[ii][jj] - b@[ii][jj])
                        <= i64::MAX,
                i < 5,
                j <= 5,
                e@.len() == 5 * i + j,
                forall|ii: int, jj: int|
                    0 <= ii < 5 && 0 <= jj < 5 && 5 * ii + jj < e@.len() ==> #[trigger] e@[5 * ii
                        + jj] as int == a@[ii][jj] - b@[ii][jj],
            decreases 5 - j,
        {
            let x = a.get(i, j);
            let y = b.get(i, j);
            e.push(x - y);
            j += 1;
        }
        i += 1;
    }
    let r = Mat5 { e };
    proof {
        assert forall|i: int, j: int| 0 <= i < 5 && 0 <= j < 5 implies #[trigger] r@[i][j] == msub(
            a@,
            b@,
        )[i][j] by {
            assert(r@[i][j] == r.e@[5 * i + j] as int);
        }
        assert(r@ =~~= msub(a@, b@));
    }
    r
}

/// Transpose.
pub fn mat_transpose(a: &Mat5) -> (r: Mat5)
    requires
        a.wf(),
    ensures
        r.wf(),
        r@ == mtrans(a@),
{
    let mut e: Vec<i64> = Vec::new();
    let mut i: usize = 0;
    while i < 5
        invariant
            a.wf(),
            i <= 5,
            e@.len() == 5 * i,
            forall|ii: int, jj: int|
                0 <= ii < 5 && 0 <= jj < 5 && 5 * ii + jj < e@.len() ==> #[trigger] e@[5 * ii + jj]
                    as int == a@[jj][ii],
        decreases 5 - i,
    {
        let mut j: usize = 0;
        while j < 5
            invariant
                a.wf(),
                i < 5,
                j <= 5,
                e@.len() == 5 * i + j,
                forall|ii: int, jj: int|
                    0 <= ii < 5 && 0 <= jj < 5 && 5 * ii + jj < e@.len() ==> #[trigger] e@[5 * ii
                        + jj] as int == a@[jj][ii],
            decreases 5 - j,
        {
            e.push(a.get(j, i));
            j += 1;
        }
        i += 1;
    }
    let r = Mat5 { e };
    proof {
        assert forall|i: int, j: int| 0 <= i < 5 && 0 <= j < 5 implies #[trigger] r@[i][j]
            == mtrans(a@)[i][j] by {
            assert(r@[i][j] == r.e@[5 * i + j] as int);
        }
        assert(r@ =~~= mtrans(a@));
    }
    r
}

/// A bound on `m` carries over to its transpose.
pub proof fn lemma_mtrans_bounded(m: Seq<Seq<int>>, b: int)
    requires
        bounded5(m, b),
    ensures
        bounded5(mtrans(m), b),
{
    assert forall|i: int, j: int| 0 <= i < 5 && 0 <= j < 5 implies -b <= #[trigger] mtrans(
        m,
    )[i][j] <= b by {
        assert(mtrans(m)[i][j] == m[j][i]);
    }
}

/// One entry of a bounded matrix product, computed exactly.
fn mul_entry(a: &Mat5, b: &Mat5, i: usize, j: usize, Ghost(ba): Ghost<int>, Ghost(bb): Ghost<int>)
    -> (r: i64)
    requires
        a.wf(),
        b.wf(),
        i < 5,
        j < 5,
        ba >= 0,
        bb >= 0,
        bounded5(a@, ba),
        bounded5(b@, bb),
        5 * ba * bb <= i64::MAX as int,
    ensures
        r as int == mul_at(a@, b@, i as int, j as int),
        -(5 * ba * bb) <= r as int <= 5 * ba * bb,
{
    let x0: i128 = a.get(i, 0) as i128;
    let x1: i128 = a.get(i, 1) as i128;
    let x2: i128 = a.get(i, 2) as i128;
    let x3: i128 = a.get(i, 3) as i128;
    let x4: i128 = a.get(i, 4) as i128;
    let y0: i128 = b.get(0, j) as i128;
    let y1: i128 = b.get(1, j) as i128;
    let y2: i128 = b.get(2, j) as i128;
    let y3: i128 = b.get(3, j) as i128;
    let y4: i128 = b.get(4, j) as i128;
    proof {
        assert(5 * (ba * bb) == 5 * ba * bb) by (nonlinear_arith);
        assert(ba * bb >= 0) by (nonlinear_arith)
            requires
                ba >= 0,
                bb >= 0,
        ;
        assert(-(ba * bb) <= (x0 as int) * (y0 as int) <= ba * bb) by (nonlinear_arith)
            requires
                -ba <= x0 as int <= ba,
                -bb <= y0 as int <= bb,
                ba >= 0,
                bb >= 0,
        ;
        assert(-(ba * bb) <= (x1 as int) * (y1 as int) <= ba * bb) by (nonlinear_arith)
            requires
                -ba <= x1 as int <= ba,
                -bb <= y1 as int <= bb,
                ba >= 0,
                bb >= 0,
        ;
        assert(-(ba * bb) <= (x2 as int) * (y2 as int) <= ba * bb) by (nonlinear_arith)
            requires
                -ba <= x2 as int <= ba,
                -bb <= y2 as int <= bb,
                ba >= 0,
                bb >= 0,
        ;
        assert(-(ba * bb) <= (x3 as int) * (y3 as int) <= ba * bb) by (nonlinear_arith)
            requires
                -ba <= x3 as int <= ba,
                -bb <= y3 as int <= bb,
                ba >= 0,
                bb >= 0,
        ;
        assert(-(ba * bb) <= (x4 as int) * (y4 as int) <= ba * bb) by (nonlinear_arith)
            requires
                -ba <= x4 as int <= ba,
                -bb <= y4 as int <= bb,
                ba >= 0,
                bb >= 0,
        ;
    }
    let p0: i128 = x0 * y0;
    let p1: i128 = x1 * y1;
    let p2: i128 = x2 * y2;
    let p3: i128 = x3 * y3;
    let p4: i128 = x4 * y4;
    let s: i128 = p0 + p1 + p2 + p3 + p4;
    assert(-(5 * ba * bb) <= s as int <= 5 * ba * bb);
    s as i64
}

/// Matrix product of two bounded matrices, in the literal operand order.
pub fn mat_mul(a: &Mat5, b: &Mat5, Ghost(ba): Ghost<int>, Ghost(bb): Ghost<int>) -> (r: Mat5)
    requires
        a.wf(),
        b.wf(),
        ba >= 0,
        bb >= 0,
        bounded5(a@, ba),
        bounded5(b@, bb),
        5 * ba * bb <= i64::MAX as int,
    ensures
        r.wf(),
        r@ == mmul(a@, b@),
        bounded5(r@, 5 * ba * bb),
{
    let mut e: Vec<i64> = Vec::new();
    let mut i: usize = 0;
    while i < 5
        invariant
            a.wf(),
            b.wf(),
            ba >= 0,
            bb >= 0,
            bounded5(a@, ba),
            bounded5(b@, bb),
            5 * ba * bb <= i64::MAX as int,
            i <= 5,
            e@.len() == 5 * i,
            forall|ii: int, jj: int|
                0 <= ii < 5 && 0 <= jj < 5 && 5 * ii + jj < e@.len() ==> #[trigger] e@[5 * ii + jj]
                    as int == mul_at(a@, b@, ii, jj),
            forall|kk: int| 0 <= kk < e@.len() ==> -(5 * ba * bb) <= #[trigger] e@[kk] as int <= 5
                * ba * bb,
        decreases 5 - i,
    {
        let mut j: usize = 0;
        while j < 5
            invariant
                a.wf(),
                b.wf(),
                ba >= 0,
                bb >= 0,
                bounded5(a@, ba),
                bounded5(b@, bb),
                5 * ba * bb <= i64::MAX as int,
                i < 5,
                j <= 5,
                e@.len() == 5 * i + j,
                forall|ii: int, jj: int|
                    0 <= ii < 5 && 0 <= jj < 5 && 5 * ii + jj < e@.len() ==> #[trigger] e@[5 * ii
                        + jj] as int == mul_at(a@, b@, ii, jj),
                forall|kk: int| 0 <= kk < e@.len() ==> -(5 * ba * bb) <= #[trigger] e@[kk] as int
                    <= 5 * ba * bb,
            decreases 5 - j,
        {
            e.push(mul_entry(a, b, i, j, Ghost(ba), Ghost(bb)));
            j += 1;
        }
        i += 1;
    }
    let r = Mat5 { e };
    proof {
        assert forall|i: int, j: int| 0 <= i < 5 && 0 <= j < 5 implies #[trigger] r@[i][j] == mmul(
            a@,
            b@,
        )[i][j] by {
            assert(r@[i][j] == r.e@[5 * i + j] as int);
        }
        assert(r@ =~~= mmul(a@, b@));
        assert forall|i: int, j: int| 0 <= i < 5 && 0 <= j < 5 implies -(5 * ba * bb)
            <= #[trigger] r@[i][j] <= 5 * ba * bb by {
            assert(r@[i][j] == r.e@[5 * i + j] as int);
        }
    }
    r
}

/// One entry of a matrix product of arbitrary matrices; `None` when the
/// exact value leaves the `i64` range.
pub(crate) fn mul_entry_checked(a: &Mat5, b: &Mat5, i: usize, j: usize) -> (r: Option<i64>)
    requires
        a.wf(),
        b.wf(),
        i < 5,
        j < 5,
    ensures
        r matches Some(v) ==> v as int == mul_at(a@, b@, i as int, j as int),
{
    let x0: i128 = a.get(i, 0) as i128;
    let x1: i128 = a.get(i, 1) as i128;
    let x2: i128 = a.get(i, 2) as i128;
    let x3: i128 = a.get(i, 3) as i128;
    let x4: i128 = a.get(i, 4) as i128;
    let y0: i128 = b.get(0, j) as i128;
    let y1: i128 = b.get(1, j) as i128;
    let y2: i128 = b.get(2, j) as i128;
    let y3: i128 = b.get(3, j) as i128;
    let y4: i128 = b.get(4, j) as i128;
    proof {
        lemma_i64_product_fits(x0 as int, y0 as int);
        lemma_i64_product_fits(x1 as int, y1 as int);
        lemma_i64_product_fits(x2 as int, y2 as int);
        lemma_i64_product_fits(x3 as int, y3 as int);
        lemma_i64_product_fits(x4 as int, y4 as int);
    }
    let p0: i128 = x0 * y0;
    let p1: i128 = x1 * y1;
    let p2: i128 = x2 * y2;
    let p3: i128 = x3 * y3;
    let p4: i128 = x4 * y4;
    let s01: i128 = match p0.checked_add(p1) {
        Some(v) => v,
        None => { return None; },
    };
    let s012: i128 = match s01.checked_add(p2) {
        Some(v) => v,
        None => { return None; },
    };
    let s0123: i128 = match s012.checked_add(p3) {
        Some(v) => v,
        None => { return None; },
    };
    let s: i128 = match s0123.checked_add(p4) {
        Some(v) => v,
        None => { return None; },
    };
    if s <= i64::MAX as i128 && s >= i64::MIN as i128 {
        Some(s as i64)
    } else {
        None
    }
}

/// The product of two `i64`-range values stays inside the `i128` range.
proof fn lemma_i64_product_fits(x: int, y: int)
    requires
        i64::MIN as int <= x <= i64::MAX as int,
        i64::MIN as int <= y <= i64::MAX as int,
    ensures
        i128::MIN as int <= x * y <= i128::MAX as int,
{
    assert(i128::MIN as int <= x * y <= i128::MAX as int) by (nonlinear_arith)
        requires
            -0x8000000000000000 <= x <= 0x7fffffffffffffff,
            -0x8000000000000000 <= y <= 0x7fffffffffffffff,
    ;
}

/// Matrix product of arbitrary matrices; `None` when some entry of the
/// exact product leaves the `i64` range.
pub fn mat_mul_checked(a: &Mat5, b: &Mat5) -> (r: Option<Mat5>)
    requires
        a.wf(),
        b.wf(),
    ensures
        r matches Some(m) ==> m.wf() && m@ == mmul(a@, b@),
{
    let mut e: Vec<i64> = Vec::new();
    let mut i: usize = 0;
    while i < 5
        invariant
            a.wf(),
            b.wf(),
            i <= 5,
            e@.len() == 5 * i,
            forall|ii: int, jj: int|
                0 <= ii < 5 && 0 <= jj < 5 && 5 * ii + jj < e@.len() ==> #[trigger] e@[5 * ii + jj]
                    as int == mul_at(a@, b@, ii, jj),
        decreases 5 - i,
    {
        let mut j: usize = 0;
        while j < 5
            invariant
                a.wf(),
                b.wf(),
                i < 5,
                j <= 5,
                e@.len() == 5 * i + j,
                forall|ii: int, jj: int|
                    0 <= ii < 5 && 0 <= jj < 5 && 5 * ii + jj < e@.len() ==> #[trigger] e@[5 * ii
                        + jj] as int == mul_at(a@, b@, ii, jj),
            decreases 5 - j,
        {
            match mul_entry_checked(a, b, i, j) {
                Some(v) => { e.push(v); },
                None => { return None; },
            }
            j += 1;
        }
        i += 1;
    }
    let r = Mat5 { e };
    proof {
        assert forall|i: int, j: int| 0 <= i < 5 && 0 <= j < 5 implies #[trigger] r@[i][j] == mmul(
            a@,
            b@,
        )[i][j] by {
            assert(r@[i][j] == r.e@[5 * i + j] as int);
        }
        assert(r@ =~~= mmul(a@, b@));
    }
    Some(r)
}

/// One entry of a bounded matrix-vector product.
fn mvmul_entry(a: &Mat5, x: &Vec5, i: usize, Ghost(ba): Ghost<int>, Ghost(bx): Ghost<int>) -> (r:
    i64)
    requires
        a.wf(),
        x.wf(),
        i < 5,
        ba >= 0,
        bx >= 0,
        bounded5(a@, ba),
        boundedv5(x@, bx),
        5 * ba * bx <= i64::MAX as int,
    ensures
        r as int == mvmul_at(a@, x@, i as int),
        -(5 * ba * bx) <= r as int <= 5 * ba * bx,
{
    let a0: i128 = a.get(i, 0) as i128;
    let a1: i128 = a.get(i, 1) as i128;
    let a2: i128 = a.get(i, 2) as i128;
    let a3: i128 = a.get(i, 3) as i128;
    let a4: i128 = a.get(i, 4) as i128;
    let v0: i128 = x.get(0) as i128;
    let v1: i128 = x.get(1) as i128;
    let v2: i128 = x.get(2) as i128;
    let v3: i128 = x.get(3) as i128;
    let v4: i128 = x.get(4) as i128;
    proof {
        assert(5 * (ba * bx) == 5 * ba * bx) by (nonlinear_arith);
        assert(ba * bx >= 0) by (nonlinear_arith)
            requires
                ba >= 0,
                bx >= 0,
        ;
        assert(-(ba * bx) <= (a0 as int) * (v0 as int) <= ba * bx) by (nonlinear_arith)
            requires
                -ba <= a0 as int <= ba,
                -bx <= v0 as int <= bx,
                ba >= 0,
                bx >= 0,
        ;
        assert(-(ba * bx) <= (a1 as int) * (v1 as int) <= ba * bx) by (nonlinear_arith)
            requires
                -ba <= a1 as int <= ba,
                -bx <= v1 as int <= bx,
                ba >= 0,
                bx >= 0,
        ;
        assert(-(ba * bx) <= (a2 as int) * (v2 as int) <= ba * bx) by (nonlinear_arith)
            requires
                -ba <= a2 as int <= ba,
                -bx <= v2 as int <= bx,
                ba >= 0,
                bx >= 0,
        ;
        assert(-(ba * bx) <= (a3 as int) * (v3 as int) <= ba * bx) by (nonlinear_arith)
            requires
                -ba <= a3 as int <= ba,
                -bx <= v3 as int <= bx,
                ba >= 0,
                bx >= 0,
        ;
        assert(-(ba * bx) <= (a4 as int) * (v4 as int) <= ba * bx) by (nonlinear_arith)
            requires
                -ba <= a4 as int <= ba,
                -bx <= v4 as int <= bx,
                ba >= 0,
                bx >= 0,
        ;
    }
    let s: i128 = a0 * v0 + a1 * v1 + a2 * v2 + a3 * v3 + a4 * v4;
    assert(-(5 * ba * bx) <= s as int <= 5 * ba * bx);
    s as i64
}

/// Matrix-vector product `a * x` of bounded operands.
pub fn mat_vec_mul(a: &Mat5, x: &Vec5, Ghost(ba): Ghost<int>, Ghost(bx): Ghost<int>) -> (r: Vec5)
    requires
        a.wf(),
        x.wf(),
        ba >= 0,
        bx >= 0,
        bounded5(a@, ba),
        boundedv5(x@, bx),
        5 * ba * bx <= i64::MAX as int,
    ensures
        r.wf(),
        r@ == mvmul(a@, x@),
        boundedv5(r@, 5 * ba * bx),
{
    let mut e: Vec<i64> = Vec::new();
    let mut i: usize = 0;
    while i < 5
        invariant
            a.wf(),
            x.wf(),
            ba >= 0,
            bx >= 0,
            bounded5(a@, ba),
            boundedv5(x@, bx),
            5 * ba * bx <= i64::MAX as int,
            i <= 5,
            e@.len() == i,
            forall|ii: int|
                0 <= ii < e@.len() ==> #[trigger] e@[ii] as int == mvmul_at(a@, x@, ii) && -(5 * ba
                    * bx) <= e@[ii] as int <= 5 * ba * bx,
        decreases 5 - i,
    {
        e.push(mvmul_entry(a, x, i, Ghost(ba), Ghost(bx)));
        i += 1;
    }
    let r = Vec5 { e };
    proof {
        assert forall|i: int| 0 <= i < 5 implies #[trigger] r@[i] == mvmul(a@, x@)[i] by {
            assert(r@[i] == r.e@[i] as int);
        }
        assert(r@ =~= mvmul(a@, x@));
        assert forall|i: int| 0 <= i < 5 implies -(5 * ba * bx) <= #[trigger] r@[i] <= 5 * ba
            * bx by {
            assert(r@[i] == r.e@[i] as int);
        }
    }
    r
}

/// Whether every entry of `m` lies in `[-b, b]`.
///
/// The gain returned by a filter cycle can carry entries beyond the
/// magnitude the update formulas accept; this check lets a caller
/// establish their gain-magnitude precondition at runtime.
pub fn mat_entries_bounded(m: &Mat5, b: i64) -> (r: bool)
    requires
        m.wf(),
        b >= 0,
    ensures
        r == bounded5(m@, b as int),
{
    let mut i: usize = 0;
    while i < 5
        invariant
            m.wf(),
            b >= 0,
            i <= 5,
            forall|ii: int, jj: int|
                0 <= ii < i && 0 <= jj < 5 ==> -b <= #[trigger] m@[ii][jj] <= b,
        decreases 5 - i,
    {
        let mut j: usize = 0;
        while j < 5
            invariant
                m.wf(),
                b >= 0,
                i < 5,
                j <= 5,
                forall|ii: int, jj: int|
                    0 <= ii < i && 0 <= jj < 5 ==> -b <= #[trigger] m@[ii][jj] <= b,
                forall|jj: int| 0 <= jj < j ==> -b <= #[trigger] m@[i as int][jj] <= b,
            decreases 5 - j,
        {
            let v = m.get(i, j);
            if v > b || v < -b {
                return false;
            }
            j += 1;
        }
        i += 1;
    }
    true
}

/// Elementwise vector sum.
pub fn vec_add(x: &Vec5, y: &Vec5) -> (r: Vec5)
    requires
        x.wf(),
        y.wf(),
        forall|i: int| 0 <= i < 5 ==> i64::MIN <= #[trigger] (x@[i] + y@[i]) <= i64::MAX,
    ensures
        r.wf(),
        r@ == vadd(x@, y@),
{
    let mut e: Vec<i64> = Vec::new();
    let mut i: usize = 0;
    while i < 5
        invariant
            x.wf(),
            y.wf(),
            forall|ii: int| 0 <= ii < 5 ==> i64::MIN <= #[trigger] (x@[ii] + y@[ii]) <= i64::MAX,
            i <= 5,
            e@.len() == i,
            forall|ii: int| 0 <= ii < e@.len() ==> #[trigger] e@[ii] as int == x@[ii] + y@[ii],
        decreases 5 - i,
    {
        e.push(x.get(i) + y.get(i));
        i += 1;
    }
    let r = Vec5 { e };
    proof {
        assert forall|i: int| 0 <= i < 5 implies #[trigger] r@[i] == vadd(x@, y@)[i] by {
            assert(r@[i] == r.e@[i] as int);
        }
        assert(r@ =~= vadd(x@, y@));
    }
    r
}

/// Elementwise vector difference.
pub fn vec_sub(x: &Vec5, y: &Vec5) -> (r: Vec5)
    requires
        x.wf(),
        y.wf(),
        forall|i: int| 0 <= i < 5 ==> i64::MIN <= #[trigger] (x@[i] - y@[i]) <= i64::MAX,
    ensures
        r.wf(),
        r@ == vsub(x@, y@),
{
    let mut e: Vec<i64> = Vec::new();
    let mut i: usize = 0;
    while i < 5
        invariant
            x.wf(),
            y.wf(),
            forall|ii: int| 0 <= ii < 5 ==> i64::MIN <= #[trigger] (x@[ii] - y@[ii]) <= i64::MAX,
            i <= 5,
            e@.len() == i,
            forall|ii: int| 0 <= ii < e@.len() ==> #[trigger] e@[ii] as int == x@[ii] - y@[ii],
        decreases 5 - i,
    {
        e.push(x.get(i) - y.get(i));
        i += 1;
    }
    let r = Vec5 { e };
    proof {
        assert forall|i: int| 0 <= i < 5 implies #[trigger] r@[i] == vsub(x@, y@)[i] by {
            assert(r@[i] == r.e@[i] as int);
        }
        assert(r@ =~= vsub(x@, y@));
    }
    r
}

} // verus!
