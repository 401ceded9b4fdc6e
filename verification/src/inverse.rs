//! Exact matrix inversion over the integer scalar.
//!
//! A candidate inverse is computed by cofactor expansion; the result is
//! accepted only after a verified check that both products with the input
//! equal the identity. The public contract therefore guarantees that every
//! returned matrix is a two-sided exact inverse, and — by that same
//! guarantee — that inversion of a matrix with no exact inverse always
//! fails.

use vstd::prelude::*;

use crate::mat5::Mat5;
use crate::mat5::mident;
use crate::mat5::mmul;
use crate::mat5::mul_at;
use crate::mat5::wf5;

verus! {

/// `b` is a two-sided exact inverse of `a`.
pub open spec fn is_inverse5(a: Seq<Seq<int>>, b: Seq<Seq<int>>) -> bool {
    wf5(b) && mmul(a, b) == mident() && mmul(b, a) == mident()
}

/// `a` has an exact inverse over the integer scalar.
pub open spec fn invertible5(a: Seq<Seq<int>>) -> bool {
    exists|b: Seq<Seq<int>>| is_inverse5(a, b)
}

/// An `n`-by-`n` grid of working entries.
spec fn grid(m: Seq<Vec<i128>>, n: int) -> bool {
    m.len() == n && forall|i: int| 0 <= i < n ==> (#[trigger] m[i])@.len() == n
}

/// The submatrix that omits row `r` and column `c`.
fn minor_of(m: &Vec<Vec<i128>>, r: usize, c: usize) -> (out: Vec<Vec<i128>>)
    requires
        1 <= m@.len() <= 5,
        grid(m@, m@.len() as int),
        r < m@.len(),
        c < m@.len(),
    ensures
        grid(out@, m@.len() - 1),
{
    let n = m.len();
    let mut out: Vec<Vec<i128>> = Vec::new();
    let mut i: usize = 0;
    while i < n
        invariant
            n == m@.len(),
            1 <= n <= 5,
            grid(m@, n as int),
            r < n,
            c < n,
            i <= n,
            out@.len() == if i <= r { i as int } else { i - 1 },
            forall|k: int| 0 <= k < out@.len() ==> (#[trigger] out@[k])@.len() == n - 1,
        decreases n - i,
    {
        if i != r {
            let mut row: Vec<i128> = Vec::new();
            let mut j: usize = 0;
            while j < n
                invariant
                    n == m@.len(),
                    1 <= n <= 5,
                    grid(m@, n as int),
                    i < n,
                    c < n,
                    j <= n,
                    row@.len() == if j <= c { j as int } else { j - 1 },
                decreases n - j,
            {
                if j != c {
                    row.push(m[i][j]);
                }
                j += 1;
            }
            out.push(row);
        }
        i += 1;
    }
    out
}

/// Determinant by cofactor expansion along the first row; `None` when an
/// intermediate value leaves the `i128` range.
fn det_of(m: &Vec<Vec<i128>>) -> (r: Option<i128>)
    requires
        1 <= m@.len() <= 5,
        grid(m@, m@.len() as int),
    decreases m@.len(),
{
    let n = m.len();
    if n == 1 {
        return Some(m[0][0]);
    }
    let mut acc: i128 = 0;
    let mut j: usize = 0;
    while j < n
        invariant
            n == m@.len(),
            2 <= n <= 5,
            grid(m@, n as int),
            j <= n,
        decreases n - j,
    {
        let sub = minor_of(m, 0, j);
        let d = match det_of(&sub) {
            Some(d) => d,
            None => { return None; },
        };
        let term = match m[0][j].checked_mul(d) {
            Some(t) => t,
            None => { return None; },
        };
        acc = if j % 2 == 0 {
            match acc.checked_add(term) {
                Some(v) => v,
                None => { return None; },
            }
        } else {
            match acc.checked_sub(term) {
                Some(v) => v,
                None => { return None; },
            }
        };
        j += 1;
    }
    Some(acc)
}

/// Verified check that `a * b` is exactly the identity.
fn product_is_identity(a: &Mat5, b: &Mat5) -> (r: bool)
    requires
        a.wf(),
        b.wf(),
    ensures
        r ==> mmul(a@, b@) == mident(),
{
    let mut i: usize = 0;
    while i < 5
        invariant
            a.wf(),
            b.wf(),
            i <= 5,
            forall|ii: int, jj: int|
                0 <= ii < i && 0 <= jj < 5 ==> #[trigger] mul_at(a@, b@, ii, jj) == (if ii == jj {
                    1int
                } else {
                    0int
                }),
        decreases 5 - i,
    {
        let mut j: usize = 0;
        while j < 5
            invariant
                a.wf(),
                b.wf(),
                i < 5,
                j <= 5,
                forall|ii: int, jj: int|
                    0 <= ii < i && 0 <= jj < 5 ==> #[trigger] mul_at(a@, b@, ii, jj) == (if ii
                        == jj {
                        1int
                    } else {
                        0int
                    }),
                forall|jj: int|
                    0 <= jj < j ==> #[trigger] mul_at(a@, b@, i as int, jj) == (if i as int == jj {
                        1int
                    } else {
                        0int
                    }),
            decreases 5 - j,
        {
            let want: i64 = if i == j {
                1
            } else {
                0
            };
            match crate::mat5::mul_entry_checked(a, b, i, j) {
                Some(v) => {
                    if v != want {
                        return false;
                    }
                },
                None => { return false; },
            }
            j += 1;
        }
        i += 1;
    }
    proof {
        assert forall|i: int, j: int| 0 <= i < 5 && 0 <= j < 5 implies #[trigger] mmul(a@, b@)[i][j]
            == mident()[i][j] by {
            assert(mmul(a@, b@)[i][j] == mul_at(a@, b@, i, j));
        }
        assert(mmul(a@, b@) =~~= mident());
    }
    true
}

/// Exact inverse of a 5x5 integer matrix.
///
/// Every returned matrix is certified: both products with the input are
/// checked, entry by entry, to equal the identity, so `Some` implies
/// `is_inverse5`. In consequence a matrix with no exact inverse can never
/// yield `Some`. `None` is returned when no exact inverse exists or when
/// an intermediate value of the computation leaves the machine range;
/// success is established by the run-time certification, not promised in
/// the contract, which would take the general cofactor-expansion theorem
/// at this dimension.
pub fn try_inverse5(a: &Mat5) -> (r: Option<Mat5>)
    requires
        a.wf(),
    ensures
        r matches Some(b) ==> b.wf() && is_inverse5(a@, b@),
        !invertible5(a@) ==> r is None,
{
    let mut g: Vec<Vec<i128>> = Vec::new();
    let mut i: usize = 0;
    while i < 5
        invariant
            a.wf(),
            i <= 5,
            g@.len() == i,
            forall|k: int| 0 <= k < g@.len() ==> (#[trigger] g@[k])@.len() == 5,
        decreases 5 - i,
    {
        let mut row: Vec<i128> = Vec::new();
        let mut j: usize = 0;
        while j < 5
            invariant
                a.wf(),
                i < 5,
                j <= 5,
                row@.len() == j,
            decreases 5 - j,
        {
            row.push(a.get(i, j) as i128);
            j += 1;
        }
        g.push(row);
        i += 1;
    }
    let d = match det_of(&g) {
        Some(d) => d,
        None => { return None; },
    };
    if d != 1 && d != -1 {
        return None;
    }
    let mut e: Vec<i64> = Vec::new();
    let mut i: usize = 0;
    while i < 5
        invariant
            a.wf(),
            1 <= g@.len() <= 5,
            grid(g@, g@.len() as int),
            g@.len() == 5,
            d == 1 || d == -1,
            i <= 5,
            e@.len() == 5 * i,
        decreases 5 - i,
    {
        let mut j: usize = 0;
        while j < 5
            invariant
                a.wf(),
                grid(g@, g@.len() as int),
                g@.len() == 5,
                d == 1 || d == -1,
                i < 5,
                j <= 5,
                e@.len() == 5 * i + j,
            decreases 5 - j,
        {
            let sub = minor_of(&g, j, i);
            let cof = match det_of(&sub) {
                Some(c) => c,
                None => { return None; },
            };
            let sign: i128 = if (i + j) % 2 == 0 {
                1
            } else {
                -1
            };
            let signed = match sign.checked_mul(cof) {
                Some(s) => s,
                None => { return None; },
            };
            let val = match d.checked_mul(signed) {
                Some(v) => v,
                None => { return None; },
            };
            if val > i64::MAX as i128 || val < i64::MIN as i128 {
                return None;
            }
            e.push(val as i64);
            j += 1;
        }
        i += 1;
    }
    let b = Mat5::from_vec(e);
    if product_is_identity(a, &b) && product_is_identity(&b, a) {
        proof {
            b.lemma_view_wf5();
            assert(is_inverse5(a@, b@));
            assert(invertible5(a@));
        }
        Some(b)
    } else {
        None
    }
}

} // verus!
