//! One cycle of the 5-dimensional Kalman filter update: gain, state and
//! covariance update, residuals, residual covariance and the chi-squared
//! statistic.
//!
//! Every formula is stated literally, in its exact operand order, over the
//! matrix model of `mat5`. Entry-magnitude preconditions keep each exact
//! product inside the machine range; they are machine limits, not part of
//! the filter's mathematics.

use vstd::prelude::*;

use crate::NumericalError;
use crate::inverse::invertible5;
use crate::inverse::is_inverse5;
use crate::inverse::try_inverse5;
use crate::mat5::Mat5;
use crate::mat5::Vec5;
use crate::mat5::bounded5;
use crate::mat5::boundedv5;
use crate::mat5::lemma_mtrans_bounded;
use crate::mat5::madd;
use crate::mat5::mat_add;
use crate::mat5::mat_identity;
use crate::mat5::mat_mul;
use crate::mat5::mat_mul_checked;
use crate::mat5::mat_sub;
use crate::mat5::mat_transpose;
use crate::mat5::mat_vec_mul;
use crate::mat5::mident;
use crate::mat5::mmul;
use crate::mat5::msub;
use crate::mat5::mtrans;
use crate::mat5::mvmul;
use crate::mat5::vadd;
use crate::mat5::vec_add;
use crate::mat5::vec_sub;
use crate::mat5::vsub;

verus! {

/// Largest entry magnitude accepted for covariance, mapping, noise,
/// state and measurement operands: keeps every exact product of one
/// filter step inside the `i64` range.
pub const ENTRY_LIMIT: i64 = 65536;

/// Largest entry magnitude accepted for a Kalman-gain operand.
pub const GAIN_LIMIT: i64 = 8388608;

/// The innovation (residual-covariance) matrix `V + H*C*transpose(H)`
/// whose inverse the gain consumes.
pub open spec fn innovation(c: Seq<Seq<int>>, h: Seq<Seq<int>>, v: Seq<Seq<int>>) -> Seq<
    Seq<int>,
> {
    madd(v, mmul(mmul(h, c), mtrans(h)))
}

/// Updated state estimate `x + K*(m - H*x)`.
///
/// `x` is the extrapolated state, `K` the Kalman gain of this cycle, `m`
/// the accepted measurement and `H` the sensor mapping.
pub fn update_state_vector(
    extrap_state_vector: &Vec5,
    kalman_gain: &Mat5,
    measurement: &Vec5,
    sensor_mapping: &Mat5,
) -> (r: Vec5)
    requires
        extrap_state_vector.wf(),
        kalman_gain.wf(),
        measurement.wf(),
        sensor_mapping.wf(),
        boundedv5(extrap_state_vector@, ENTRY_LIMIT as int),
        bounded5(kalman_gain@, GAIN_LIMIT as int),
        boundedv5(measurement@, ENTRY_LIMIT as int),
        bounded5(sensor_mapping@, ENTRY_LIMIT as int),
    ensures
        r.wf(),
        r@ == vadd(
            extrap_state_vector@,
            mvmul(kalman_gain@, vsub(measurement@, mvmul(sensor_mapping@, extrap_state_vector@))),
        ),
{
    let mapped = mat_vec_mul(
        sensor_mapping,
        extrap_state_vector,
        Ghost(ENTRY_LIMIT as int),
        Ghost(ENTRY_LIMIT as int),
    );
    proof {
        assert forall|i: int| 0 <= i < 5 implies i64::MIN <= #[trigger] (measurement@[i]
            - mapped@[i]) <= i64::MAX by {
            assert(-(ENTRY_LIMIT as int) <= measurement@[i] <= ENTRY_LIMIT as int);
        }
    }
    let parens = vec_sub(measurement, &mapped);
    proof {
        assert forall|i: int| 0 <= i < 5 implies -21474902016 <= #[trigger] parens@[i]
            <= 21474902016 by {
            assert(-(ENTRY_LIMIT as int) <= measurement@[i] <= ENTRY_LIMIT as int);
            assert(-21474836480 <= mapped@[i] <= 21474836480);
        }
    }
    let kalman_product = mat_vec_mul(
        kalman_gain,
        &parens,
        Ghost(GAIN_LIMIT as int),
        Ghost(21474902016int),
    );
    proof {
        assert forall|i: int| 0 <= i < 5 implies i64::MIN <= #[trigger] (extrap_state_vector@[i]
            + kalman_product@[i]) <= i64::MAX by {
            assert(-(ENTRY_LIMIT as int) <= extrap_state_vector@[i] <= ENTRY_LIMIT as int);
            assert(-(5 * (GAIN_LIMIT as int) * 21474902016) <= kalman_product@[i] <= 5 * (
            GAIN_LIMIT as int) * 21474902016);
        }
    }
    vec_add(extrap_state_vector, &kalman_product)
}

/// Kalman gain `K = C*transpose(H)*inverse(V + H*C*transpose(H))`.
///
/// Fails with `NumericalError::Singular` whenever no exact inverse of
/// the innovation matrix `V + H*C*transpose(H)` is certified — in
/// particular whenever the innovation is singular, which can never yield
/// a gain — and with `NumericalError::OutOfRange` when an entry of the
/// exact gain product leaves the machine range. A returned gain can
/// carry entries beyond `GAIN_LIMIT`; `mat_entries_bounded` lets the
/// caller establish the update functions' gain-magnitude precondition.
pub fn calculate_kalman_gain(c: &Mat5, h: &Mat5, v: &Mat5) -> (r: Result<Mat5, NumericalError>)
    requires
        c.wf(),
        h.wf(),
        v.wf(),
        bounded5(c@, ENTRY_LIMIT as int),
        bounded5(h@, ENTRY_LIMIT as int),
        bounded5(v@, ENTRY_LIMIT as int),
    ensures
        r matches Ok(k) ==> k.wf() && exists|si: Seq<Seq<int>>|
            is_inverse5(innovation(c@, h@, v@), si) && k@ == mmul(mmul(c@, mtrans(h@)), si),
        !invertible5(innovation(c@, h@, v@)) ==> r is Err,
{
    let hc = mat_mul(h, c, Ghost(ENTRY_LIMIT as int), Ghost(ENTRY_LIMIT as int));
    let ht = mat_transpose(h);
    proof {
        lemma_mtrans_bounded(h@, ENTRY_LIMIT as int);
    }
    let hcht = mat_mul(&hc, &ht, Ghost(21474836480int), Ghost(ENTRY_LIMIT as int));
    proof {
        assert forall|i: int, j: int| 0 <= i < 5 && 0 <= j < 5 implies i64::MIN
            <= #[trigger] (v@[i][j] + hcht@[i][j]) <= i64::MAX by {
            assert(-(ENTRY_LIMIT as int) <= v@[i][j] <= ENTRY_LIMIT as int);
            assert(-7036874417766400 <= hcht@[i][j] <= 7036874417766400);
        }
    }
    let s = mat_add(v, &hcht);
    let si = match try_inverse5(&s) {
        Some(si) => si,
        None => { return Err(NumericalError::Singular); },
    };
    let cht = mat_mul(c, &ht, Ghost(ENTRY_LIMIT as int), Ghost(ENTRY_LIMIT as int));
    match mat_mul_checked(&cht, &si) {
        Some(k) => {
            proof {
                assert(s@ == innovation(c@, h@, v@));
                assert(is_inverse5(innovation(c@, h@, v@), si@));
                assert(k@ == mmul(mmul(c@, mtrans(h@)), si@));
            }
            Ok(k)
        },
        None => Err(NumericalError::OutOfRange),
    }
}

/// Updated covariance `C_new = C*(I - K*H)`, in the literal operand
/// order prescribed for the cycle.
///
/// This operand order does not preserve symmetry of `C` in general, even
/// in exact arithmetic; the symmetric variant multiplies `C` on the
/// other side.
pub fn update_covariance(k: &Mat5, h: &Mat5, c: &Mat5) -> (r: Mat5)
    requires
        k.wf(),
        h.wf(),
        c.wf(),
        bounded5(k@, GAIN_LIMIT as int),
        bounded5(h@, ENTRY_LIMIT as int),
        bounded5(c@, ENTRY_LIMIT as int),
    ensures
        r.wf(),
        r@ == mmul(c@, msub(mident(), mmul(k@, h@))),
{
    let kh = mat_mul(k, h, Ghost(GAIN_LIMIT as int), Ghost(ENTRY_LIMIT as int));
    let ident = mat_identity();
    proof {
        assert forall|i: int, j: int| 0 <= i < 5 && 0 <= j < 5 implies i64::MIN
            <= #[trigger] (ident@[i][j] - kh@[i][j]) <= i64::MAX by {
            assert(-2748779069440 <= kh@[i][j] <= 2748779069440);
            assert(ident@[i][j] == if i == j { 1int } else { 0int });
        }
    }
    let parens = mat_sub(&ident, &kh);
    proof {
        assert forall|i: int, j: int| 0 <= i < 5 && 0 <= j < 5 implies -2748779069441
            <= #[trigger] parens@[i][j] <= 2748779069441 by {
            assert(parens@[i][j] == ident@[i][j] - kh@[i][j]);
            assert(-2748779069440 <= kh@[i][j] <= 2748779069440);
            assert(ident@[i][j] == if i == j { 1int } else { 0int });
        }
    }
    mat_mul(c, &parens, Ghost(ENTRY_LIMIT as int), Ghost(2748779069441int))
}

/// Filtered residuals `r = p*(I - H*K)`, for `p` the predicted residuals.
pub fn filter_residuals(h: &Mat5, k: &Mat5, residual_prediction: &Mat5) -> (r: Mat5)
    requires
        h.wf(),
        k.wf(),
        residual_prediction.wf(),
        bounded5(h@, ENTRY_LIMIT as int),
        bounded5(k@, GAIN_LIMIT as int),
        bounded5(residual_prediction@, ENTRY_LIMIT as int),
    ensures
        r.wf(),
        r@ == mmul(residual_prediction@, msub(mident(), mmul(h@, k@))),
{
    let hk = mat_mul(h, k, Ghost(ENTRY_LIMIT as int), Ghost(GAIN_LIMIT as int));
    let ident = mat_identity();
    proof {
        assert forall|i: int, j: int| 0 <= i < 5 && 0 <= j < 5 implies i64::MIN
            <= #[trigger] (ident@[i][j] - hk@[i][j]) <= i64::MAX by {
            assert(-2748779069440 <= hk@[i][j] <= 2748779069440);
            assert(ident@[i][j] == if i == j { 1int } else { 0int });
        }
    }
    let parens = mat_sub(&ident, &hk);
    proof {
        assert forall|i: int, j: int| 0 <= i < 5 && 0 <= j < 5 implies -2748779069441
            <= #[trigger] parens@[i][j] <= 2748779069441 by {
            assert(parens@[i][j] == ident@[i][j] - hk@[i][j]);
            assert(-2748779069440 <= hk@[i][j] <= 2748779069440);
            assert(ident@[i][j] == if i == j { 1int } else { 0int });
        }
    }
    mat_mul(residual_prediction, &parens, Ghost(ENTRY_LIMIT as int), Ghost(2748779069441int))
}

/// Residual covariance `R = V - H*C*transpose(H)`.
pub fn residual_covariance_matrix(v: &Mat5, h: &Mat5, c: &Mat5) -> (r: Mat5)
    requires
        v.wf(),
        h.wf(),
        c.wf(),
        bounded5(v@, ENTRY_LIMIT as int),
        bounded5(h@, ENTRY_LIMIT as int),
        bounded5(c@, ENTRY_LIMIT as int),
    ensures
        r.wf(),
        r@ == msub(v@, mmul(mmul(h@, c@), mtrans(h@))),
{
    let hc = mat_mul(h, c, Ghost(ENTRY_LIMIT as int), Ghost(ENTRY_LIMIT as int));
    let ht = mat_transpose(h);
    proof {
        lemma_mtrans_bounded(h@, ENTRY_LIMIT as int);
    }
    let product = mat_mul(&hc, &ht, Ghost(21474836480int), Ghost(ENTRY_LIMIT as int));
    proof {
        assert forall|i: int, j: int| 0 <= i < 5 && 0 <= j < 5 implies i64::MIN
            <= #[trigger] (v@[i][j] - product@[i][j]) <= i64::MAX by {
            assert(-(ENTRY_LIMIT as int) <= v@[i][j] <= ENTRY_LIMIT as int);
            assert(-7036874417766400 <= product@[i][j] <= 7036874417766400);
        }
    }
    mat_sub(v, &product)
}

/// Chi-squared increment `transpose(r)*inverse(R)*r` for residuals `r`
/// and residual covariance `R`.
///
/// Fails with `NumericalError::Singular` whenever no exact inverse of
/// `R` is certified — in particular whenever `R` is singular — and with
/// `NumericalError::OutOfRange` when an entry of the exact product
/// leaves the machine range.
pub fn chi_squared_increment(residuals: &Mat5, residual_covariance: &Mat5) -> (r: Result<
    Mat5,
    NumericalError,
>)
    requires
        residuals.wf(),
        residual_covariance.wf(),
    ensures
        r matches Ok(x) ==> x.wf() && exists|ri: Seq<Seq<int>>|
            is_inverse5(residual_covariance@, ri) && x@ == mmul(
                mmul(mtrans(residuals@), ri),
                residuals@,
            ),
        !invertible5(residual_covariance@) ==> r is Err,
{
    let rt = mat_transpose(residuals);
    let ri = match try_inverse5(residual_covariance) {
        Some(ri) => ri,
        None => { return Err(NumericalError::Singular); },
    };
    let left = match mat_mul_checked(&rt, &ri) {
        Some(m) => m,
        None => { return Err(NumericalError::OutOfRange); },
    };
    match mat_mul_checked(&left, residuals) {
        Some(x) => {
            proof {
                assert(is_inverse5(residual_covariance@, ri@));
                assert(x@ == mmul(mmul(mtrans(residuals@), ri@), residuals@));
            }
            Ok(x)
        },
        None => Err(NumericalError::OutOfRange),
    }
}

/// Accumulated chi-squared statistic: elementwise sum of the previous
/// accumulator and this cycle's increment.
pub fn update_chi_squared(previous_chi_squared: &Mat5, increment: &Mat5) -> (r: Mat5)
    requires
        previous_chi_squared.wf(),
        increment.wf(),
        forall|i: int, j: int|
            0 <= i < 5 && 0 <= j < 5 ==> i64::MIN <= #[trigger] (previous_chi_squared@[i][j]
                + increment@[i][j]) <= i64::MAX,
    ensures
        r.wf(),
        r@ == madd(previous_chi_squared@, increment@),
{
    mat_add(previous_chi_squared, increment)
}

} // verus!
