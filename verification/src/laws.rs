//! Laws relating the library's operations, proved over the same models
//! that the executable contracts use.

use vstd::prelude::*;

use crate::filter::innovation;
use crate::geom::Point3;
use crate::geom::far_index;
use crate::geom::organized;
use crate::geom::sdist2;
use crate::mat5::madd;
use crate::mat5::mmul;
use crate::mat5::mtrans;
use crate::mat5::mzero;
use crate::mat5::wf5;

verus! {

/// Chi-squared accumulation is commutative: accumulating an increment
/// onto a previous total gives the same matrix either way round.
pub proof fn lemma_accumulate_commutative(a: Seq<Seq<int>>, b: Seq<Seq<int>>)
    ensures
        madd(a, b) == madd(b, a),
{
    assert forall|i: int, j: int| 0 <= i < 5 && 0 <= j < 5 implies #[trigger] madd(a, b)[i][j]
        == madd(b, a)[i][j] by {}
    assert(madd(a, b) =~~= madd(b, a));
}

/// Chi-squared accumulation is associative: grouping of successive
/// accumulations does not matter.
pub proof fn lemma_accumulate_associative(a: Seq<Seq<int>>, b: Seq<Seq<int>>, c: Seq<Seq<int>>)
    ensures
        madd(madd(a, b), c) == madd(a, madd(b, c)),
{
    assert forall|i: int, j: int| 0 <= i < 5 && 0 <= j < 5 implies #[trigger] madd(
        madd(a, b),
        c,
    )[i][j] == madd(a, madd(b, c))[i][j] by {}
    assert(madd(madd(a, b), c) =~~= madd(a, madd(b, c)));
}

/// Corner ordering is a fixed point on an already-correctly-ordered
/// quadrilateral: when corner 3 is strictly farthest from corner 0, the
/// normalization changes nothing.
pub proof fn lemma_organize_fixed_point(pts: Seq<Point3>)
    requires
        pts.len() == 4,
        sdist2(pts[3], pts[0]) > sdist2(pts[1], pts[0]),
        sdist2(pts[3], pts[0]) > sdist2(pts[2], pts[0]),
    ensures
        organized(pts) == pts,
{
    assert(far_index(pts) == 3);
}

/// With a zero sensor mapping the innovation matrix is the measurement
/// noise itself, so a noise matrix with no exact inverse forces the gain
/// computation to fail.
pub proof fn lemma_zero_mapping_innovation(c: Seq<Seq<int>>, v: Seq<Seq<int>>)
    requires
        wf5(v),
    ensures
        innovation(c, mzero(), v) == v,
{
    assert forall|i: int, j: int| 0 <= i < 5 && 0 <= j < 5 implies #[trigger] innovation(
        c,
        mzero(),
        v,
    )[i][j] == v[i][j] by {
        assert forall|k: int| 0 <= k < 5 implies #[trigger] mzero()[i][k] == 0 by {}
        assert(mmul(mzero(), c)[i][j] == 0);
        let z = mmul(mzero(), c);
        assert forall|k: int| 0 <= k < 5 implies #[trigger] z[i][k] == 0 by {}
        assert(mmul(z, mtrans(mzero()))[i][j] == 0);
    }
    assert(innovation(c, mzero(), v) =~~= v);
}

} // verus!
