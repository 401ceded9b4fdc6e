//! The trapezoidal sensor shape: four ordered corner points in the local
//! frame plus an invertible affine transform (an exact 3x3 linear part
//! and a translation) between the local and the global frame.
//!
//! Construction computes the exact inverse of the linear part by the
//! adjugate and certifies it by a verified product check, so every live
//! shape carries a two-sided inverse and every frame conversion is exact.

use vstd::prelude::*;

use crate::ConstructionError;
use crate::GeometryError;
use crate::geom::COORD_LIMIT;
use crate::geom::Point3;
use crate::geom::Vector3;
use crate::geom::Plane;
use crate::geom::Transform;
use crate::geom::dot;
use crate::geom::plane_normal_vector;
use crate::geom::pt3;
use crate::geom::pt_in_range;
use crate::geom::quad_contains_spec;
use crate::geom::quadralateral_contains;
use crate::geom::scross;
use crate::geom::sdot3;
use crate::geom::tsub;
use crate::geom::vec_in_range;
use crate::geom::vector3_from_points;
use crate::geom::vv3;

verus! {

/// Largest entry magnitude accepted for the linear part of a transform.
pub const TFM_LIMIT: i64 = 256;

/// Largest coordinate magnitude of a global point the transform accepts.
pub const GLOBAL_LIMIT: i64 = 2199023255552;

/// The 3x3 linear part of an affine transform, with exact entries.
#[derive(Clone, Copy, Debug, PartialEq, Eq, Structural)]
pub struct Mat3 {
    pub m00: i64,
    pub m01: i64,
    pub m02: i64,
    pub m10: i64,
    pub m11: i64,
    pub m12: i64,
    pub m20: i64,
    pub m21: i64,
    pub m22: i64,
}

/// Row `i` of `a`, as exact coordinates.
pub open spec fn row(a: Mat3, i: int) -> (int, int, int) {
    if i == 0 {
        (a.m00 as int, a.m01 as int, a.m02 as int)
    } else if i == 1 {
        (a.m10 as int, a.m11 as int, a.m12 as int)
    } else {
        (a.m20 as int, a.m21 as int, a.m22 as int)
    }
}

/// Column `j` of `a`, as exact coordinates.
pub open spec fn col(a: Mat3, j: int) -> (int, int, int) {
    if j == 0 {
        (a.m00 as int, a.m10 as int, a.m20 as int)
    } else if j == 1 {
        (a.m01 as int, a.m11 as int, a.m21 as int)
    } else {
        (a.m02 as int, a.m12 as int, a.m22 as int)
    }
}

/// The image of coordinates `v` under the linear map `a`.
pub open spec fn apply3(a: Mat3, v: (int, int, int)) -> (int, int, int) {
    (sdot3(row(a, 0), v), sdot3(row(a, 1), v), sdot3(row(a, 2), v))
}

/// Componentwise sum of coordinate triples.
pub open spec fn tadd(a: (int, int, int), b: (int, int, int)) -> (int, int, int) {
    (a.0 + b.0, a.1 + b.1, a.2 + b.2)
}

/// The determinant of `a`.
pub open spec fn det3(a: Mat3) -> int {
    a.m00 * (a.m11 * a.m22 - a.m12 * a.m21) - a.m01 * (a.m10 * a.m22 - a.m12 * a.m20) + a.m02 * (
    a.m10 * a.m21 - a.m11 * a.m20)
}

/// The product `a * b` is exactly the identity.
pub open spec fn mprod_is_ident(a: Mat3, b: Mat3) -> bool {
    &&& sdot3(row(a, 0), col(b, 0)) == 1
    &&& sdot3(row(a, 0), col(b, 1)) == 0
    &&& sdot3(row(a, 0), col(b, 2)) == 0
    &&& sdot3(row(a, 1), col(b, 0)) == 0
    &&& sdot3(row(a, 1), col(b, 1)) == 1
    &&& sdot3(row(a, 1), col(b, 2)) == 0
    &&& sdot3(row(a, 2), col(b, 0)) == 0
    &&& sdot3(row(a, 2), col(b, 1)) == 0
    &&& sdot3(row(a, 2), col(b, 2)) == 1
}

/// `b` is a two-sided exact inverse of `a`.
pub open spec fn is_inverse3(a: Mat3, b: Mat3) -> bool {
    mprod_is_ident(a, b) && mprod_is_ident(b, a)
}

/// All entries of `a` lie in `[-b, b]`.
pub open spec fn mat3_in_range(a: Mat3, b: int) -> bool {
    &&& -b <= a.m00 <= b
    &&& -b <= a.m01 <= b
    &&& -b <= a.m02 <= b
    &&& -b <= a.m10 <= b
    &&& -b <= a.m11 <= b
    &&& -b <= a.m12 <= b
    &&& -b <= a.m20 <= b
    &&& -b <= a.m21 <= b
    &&& -b <= a.m22 <= b
}

/// Bounded factors give a bounded product (two independent bounds).
proof fn lemma_product2(x: int, y: int, bx: int, by: int)
    requires
        bx >= 0,
        by >= 0,
        -bx <= x <= bx,
        -by <= y <= by,
    ensures
        -(bx * by) <= x * y <= bx * by,
{
    assert(-(bx * by) <= x * y <= bx * by) by (nonlinear_arith)
        requires
            bx >= 0,
            by >= 0,
            -bx <= x <= bx,
            -by <= y <= by,
    ;
}

/// Multiplication distributes over a difference, on the left.
proof fn lemma_dist(x: int, u: int, v: int)
    ensures
        x * (u - v) == x * u - x * v,
{
    assert(x * (u - v) == x * u - x * v) by (nonlinear_arith);
}

/// Multiplication distributes over a difference, on the right.
proof fn lemma_dist_r(u: int, v: int, x: int)
    ensures
        (u - v) * x == u * x - v * x,
{
    assert((u - v) * x == u * x - v * x) by (nonlinear_arith);
}

/// Multiplication commutes.
proof fn lemma_comm(x: int, y: int)
    ensures
        x * y == y * x,
{
    assert(x * y == y * x) by (nonlinear_arith);
}

/// All groupings and orders of a three-factor product are equal.
proof fn lemma_mul3(x: int, y: int, z: int)
    ensures
        x * (y * z) == y * (x * z),
        x * (y * z) == z * (x * y),
        x * (y * z) == x * (z * y),
        x * (y * z) == y * (z * x),
        x * (y * z) == z * (y * x),
{
    assert(x * (y * z) == y * (x * z) && x * (y * z) == z * (x * y) && x * (y * z) == x * (z * y)
        && x * (y * z) == y * (z * x) && x * (y * z) == z * (y * x)) by (nonlinear_arith);
}

/// The sign-adjusted adjugate of a matrix of determinant 1 or -1 is a
/// two-sided exact inverse: each entry of either product with the input
/// reduces to the determinant expansion (diagonal) or to an
/// alien-cofactor cancellation (off-diagonal).
proof fn lemma_adjugate_inverse(a: Mat3, b: Mat3, d: int)
    requires
        d == 1 || d == -1,
        det3(a) == d,
        b.m00 == d * (a.m11 * a.m22 - a.m12 * a.m21),
        b.m01 == d * (a.m02 * a.m21 - a.m01 * a.m22),
        b.m02 == d * (a.m01 * a.m12 - a.m02 * a.m11),
        b.m10 == d * (a.m12 * a.m20 - a.m10 * a.m22),
        b.m11 == d * (a.m00 * a.m22 - a.m02 * a.m20),
        b.m12 == d * (a.m02 * a.m10 - a.m00 * a.m12),
        b.m20 == d * (a.m10 * a.m21 - a.m11 * a.m20),
        b.m21 == d * (a.m01 * a.m20 - a.m00 * a.m21),
        b.m22 == d * (a.m00 * a.m11 - a.m01 * a.m10),
    ensures
        is_inverse3(a, b),
{
    let a00 = a.m00 as int;
    let a01 = a.m01 as int;
    let a02 = a.m02 as int;
    let a10 = a.m10 as int;
    let a11 = a.m11 as int;
    let a12 = a.m12 as int;
    let a20 = a.m20 as int;
    let a21 = a.m21 as int;
    let a22 = a.m22 as int;
    let e00 = b.m00 as int;
    let e01 = b.m01 as int;
    let e02 = b.m02 as int;
    let e10 = b.m10 as int;
    let e11 = b.m11 as int;
    let e12 = b.m12 as int;
    let e20 = b.m20 as int;
    let e21 = b.m21 as int;
    let e22 = b.m22 as int;
    if d == 1 {
        assert(e00 == (a11 * a22 - a12 * a21));
        assert(e01 == (a02 * a21 - a01 * a22));
        assert(e02 == (a01 * a12 - a02 * a11));
        assert(e10 == (a12 * a20 - a10 * a22));
        assert(e11 == (a00 * a22 - a02 * a20));
        assert(e12 == (a02 * a10 - a00 * a12));
        assert(e20 == (a10 * a21 - a11 * a20));
        assert(e21 == (a01 * a20 - a00 * a21));
        assert(e22 == (a00 * a11 - a01 * a10));
        lemma_dist(a00, a11 * a22, a12 * a21);
        lemma_dist(a01, a10 * a22, a12 * a20);
        lemma_dist(a02, a10 * a21, a11 * a20);
        assert(a00 * (a11 * a22 - a12 * a21) - a01 * (a10 * a22 - a12 * a20) + a02 * (a10 * a21 - a11 * a20) == det3(a));
        lemma_dist(a00, a11 * a22, a12 * a21);
        lemma_mul3(a00, a11, a22);
        lemma_mul3(a00, a12, a21);
        lemma_dist(a01, a12 * a20, a10 * a22);
        lemma_mul3(a01, a12, a20);
        lemma_mul3(a01, a10, a22);
        lemma_dist(a02, a10 * a21, a11 * a20);
        lemma_mul3(a02, a10, a21);
        lemma_mul3(a02, a11, a20);
        assert(a00 * (a11 * a22 - a12 * a21) + a01 * (a12 * a20 - a10 * a22) + a02 * (a10 * a21 - a11 * a20) == a00 * (a11 * a22 - a12 * a21) - a01 * (a10 * a22 - a12 * a20) + a02 * (a10 * a21 - a11 * a20));
        assert(a00 * e00 + a01 * e10 + a02 * e20 == 1);
        lemma_dist(a00, a02 * a21, a01 * a22);
        lemma_mul3(a00, a02, a21);
        lemma_mul3(a00, a01, a22);
        lemma_dist(a01, a00 * a22, a02 * a20);
        lemma_mul3(a01, a00, a22);
        lemma_mul3(a01, a02, a20);
        lemma_dist(a02, a01 * a20, a00 * a21);
        lemma_mul3(a02, a01, a20);
        lemma_mul3(a02, a00, a21);
        assert(a00 * (a02 * a21 - a01 * a22) + a01 * (a00 * a22 - a02 * a20) + a02 * (a01 * a20 - a00 * a21) == 0);
        assert(a00 * e01 + a01 * e11 + a02 * e21 == 0);
        lemma_dist(a00, a01 * a12, a02 * a11);
        lemma_mul3(a00, a01, a12);
        lemma_mul3(a00, a02, a11);
        lemma_dist(a01, a02 * a10, a00 * a12);
        lemma_mul3(a01, a02, a10);
        lemma_mul3(a01, a00, a12);
        lemma_dist(a02, a00 * a11, a01 * a10);
        lemma_mul3(a02, a00, a11);
        lemma_mul3(a02, a01, a10);
        assert(a00 * (a01 * a12 - a02 * a11) + a01 * (a02 * a10 - a00 * a12) + a02 * (a00 * a11 - a01 * a10) == 0);
        assert(a00 * e02 + a01 * e12 + a02 * e22 == 0);
        lemma_dist(a10, a11 * a22, a12 * a21);
        lemma_mul3(a10, a11, a22);
        lemma_mul3(a10, a12, a21);
        lemma_dist(a11, a12 * a20, a10 * a22);
        lemma_mul3(a11, a12, a20);
        lemma_mul3(a11, a10, a22);
        lemma_dist(a12, a10 * a21, a11 * a20);
        lemma_mul3(a12, a10, a21);
        lemma_mul3(a12, a11, a20);
        assert(a10 * (a11 * a22 - a12 * a21) + a11 * (a12 * a20 - a10 * a22) + a12 * (a10 * a21 - a11 * a20) == 0);
        assert(a10 * e00 + a11 * e10 + a12 * e20 == 0);
        lemma_dist(a10, a02 * a21, a01 * a22);
        lemma_mul3(a10, a02, a21);
        lemma_mul3(a10, a01, a22);
        lemma_dist(a11, a00 * a22, a02 * a20);
        lemma_mul3(a11, a00, a22);
        lemma_mul3(a11, a02, a20);
        lemma_dist(a12, a01 * a20, a00 * a21);
        lemma_mul3(a12, a01, a20);
        lemma_mul3(a12, a00, a21);
        assert(a10 * (a02 * a21 - a01 * a22) + a11 * (a00 * a22 - a02 * a20) + a12 * (a01 * a20 - a00 * a21) == a00 * (a11 * a22 - a12 * a21) - a01 * (a10 * a22 - a12 * a20) + a02 * (a10 * a21 - a11 * a20));
        assert(a10 * e01 + a11 * e11 + a12 * e21 == 1);
        lemma_dist(a10, a01 * a12, a02 * a11);
        lemma_mul3(a10, a01, a12);
        lemma_mul3(a10, a02, a11);
        lemma_dist(a11, a02 * a10, a00 * a12);
        lemma_mul3(a11, a02, a10);
        lemma_mul3(a11, a00, a12);
        lemma_dist(a12, a00 * a11, a01 * a10);
        lemma_mul3(a12, a00, a11);
        lemma_mul3(a12, a01, a10);
        assert(a10 * (a01 * a12 - a02 * a11) + a11 * (a02 * a10 - a00 * a12) + a12 * (a00 * a11 - a01 * a10) == 0);
        assert(a10 * e02 + a11 * e12 + a12 * e22 == 0);
        lemma_dist(a20, a11 * a22, a12 * a21);
        lemma_mul3(a20, a11, a22);
        lemma_mul3(a20, a12, a21);
        lemma_dist(a21, a12 * a20, a10 * a22);
        lemma_mul3(a21, a12, a20);
        lemma_mul3(a21, a10, a22);
        lemma_dist(a22, a10 * a21, a11 * a20);
        lemma_mul3(a22, a10, a21);
        lemma_mul3(a22, a11, a20);
        assert(a20 * (a11 * a22 - a12 * a21) + a21 * (a12 * a20 - a10 * a22) + a22 * (a10 * a21 - a11 * a20) == 0);
        assert(a20 * e00 + a21 * e10 + a22 * e20 == 0);
        lemma_dist(a20, a02 * a21, a01 * a22);
        lemma_mul3(a20, a02, a21);
        lemma_mul3(a20, a01, a22);
        lemma_dist(a21, a00 * a22, a02 * a20);
        lemma_mul3(a21, a00, a22);
        lemma_mul3(a21, a02, a20);
        lemma_dist(a22, a01 * a20, a00 * a21);
        lemma_mul3(a22, a01, a20);
        lemma_mul3(a22, a00, a21);
        assert(a20 * (a02 * a21 - a01 * a22) + a21 * (a00 * a22 - a02 * a20) + a22 * (a01 * a20 - a00 * a21) == 0);
        assert(a20 * e01 + a21 * e11 + a22 * e21 == 0);
        lemma_dist(a20, a01 * a12, a02 * a11);
        lemma_mul3(a20, a01, a12);
        lemma_mul3(a20, a02, a11);
        lemma_dist(a21, a02 * a10, a00 * a12);
        lemma_mul3(a21, a02, a10);
        lemma_mul3(a21, a00, a12);
        lemma_dist(a22, a00 * a11, a01 * a10);
        lemma_mul3(a22, a00, a11);
        lemma_mul3(a22, a01, a10);
        assert(a20 * (a01 * a12 - a02 * a11) + a21 * (a02 * a10 - a00 * a12) + a22 * (a00 * a11 - a01 * a10) == a00 * (a11 * a22 - a12 * a21) - a01 * (a10 * a22 - a12 * a20) + a02 * (a10 * a21 - a11 * a20));
        assert(a20 * e02 + a21 * e12 + a22 * e22 == 1);
        lemma_dist_r(a11 * a22, a12 * a21, a00);
        lemma_comm(a11 * a22, a00);
        lemma_comm(a12 * a21, a00);
        lemma_mul3(a00, a11, a22);
        lemma_mul3(a00, a12, a21);
        lemma_dist_r(a02 * a21, a01 * a22, a10);
        lemma_comm(a02 * a21, a10);
        lemma_comm(a01 * a22, a10);
        lemma_mul3(a10, a02, a21);
        lemma_mul3(a10, a01, a22);
        lemma_dist_r(a01 * a12, a02 * a11, a20);
        lemma_comm(a01 * a12, a20);
        lemma_comm(a02 * a11, a20);
        lemma_mul3(a20, a01, a12);
        lemma_mul3(a20, a02, a11);
        assert((a11 * a22 - a12 * a21) * a00 + (a02 * a21 - a01 * a22) * a10 + (a01 * a12 - a02 * a11) * a20 == a00 * (a11 * a22 - a12 * a21) - a01 * (a10 * a22 - a12 * a20) + a02 * (a10 * a21 - a11 * a20));
        assert(e00 * a00 + e01 * a10 + e02 * a20 == 1);
        lemma_dist_r(a11 * a22, a12 * a21, a01);
        lemma_comm(a11 * a22, a01);
        lemma_comm(a12 * a21, a01);
        lemma_mul3(a01, a11, a22);
        lemma_mul3(a01, a12, a21);
        lemma_dist_r(a02 * a21, a01 * a22, a11);
        lemma_comm(a02 * a21, a11);
        lemma_comm(a01 * a22, a11);
        lemma_mul3(a11, a02, a21);
        lemma_mul3(a11, a01, a22);
        lemma_dist_r(a01 * a12, a02 * a11, a21);
        lemma_comm(a01 * a12, a21);
        lemma_comm(a02 * a11, a21);
        lemma_mul3(a21, a01, a12);
        lemma_mul3(a21, a02, a11);
        assert((a11 * a22 - a12 * a21) * a01 + (a02 * a21 - a01 * a22) * a11 + (a01 * a12 - a02 * a11) * a21 == 0);
        assert(e00 * a01 + e01 * a11 + e02 * a21 == 0);
        lemma_dist_r(a11 * a22, a12 * a21, a02);
        lemma_comm(a11 * a22, a02);
        lemma_comm(a12 * a21, a02);
        lemma_mul3(a02, a11, a22);
        lemma_mul3(a02, a12, a21);
        lemma_dist_r(a02 * a21, a01 * a22, a12);
        lemma_comm(a02 * a21, a12);
        lemma_comm(a01 * a22, a12);
        lemma_mul3(a12, a02, a21);
        lemma_mul3(a12, a01, a22);
        lemma_dist_r(a01 * a12, a02 * a11, a22);
        lemma_comm(a01 * a12, a22);
        lemma_comm(a02 * a11, a22);
        lemma_mul3(a22, a01, a12);
        lemma_mul3(a22, a02, a11);
        assert((a11 * a22 - a12 * a21) * a02 + (a02 * a21 - a01 * a22) * a12 + (a01 * a12 - a02 * a11) * a22 == 0);
        assert(e00 * a02 + e01 * a12 + e02 * a22 == 0);
        lemma_dist_r(a12 * a20, a10 * a22, a00);
        lemma_comm(a12 * a20, a00);
        lemma_comm(a10 * a22, a00);
        lemma_mul3(a00, a12, a20);
        lemma_mul3(a00, a10, a22);
        lemma_dist_r(a00 * a22, a02 * a20, a10);
        lemma_comm(a00 * a22, a10);
        lemma_comm(a02 * a20, a10);
        lemma_mul3(a10, a00, a22);
        lemma_mul3(a10, a02, a20);
        lemma_dist_r(a02 * a10, a00 * a12, a20);
        lemma_comm(a02 * a10, a20);
        lemma_comm(a00 * a12, a20);
        lemma_mul3(a20, a02, a10);
        lemma_mul3(a20, a00, a12);
        assert((a12 * a20 - a10 * a22) * a00 + (a00 * a22 - a02 * a20) * a10 + (a02 * a10 - a00 * a12) * a20 == 0);
        assert(e10 * a00 + e11 * a10 + e12 * a20 == 0);
        lemma_dist_r(a12 * a20, a10 * a22, a01);
        lemma_comm(a12 * a20, a01);
        lemma_comm(a10 * a22, a01);
        lemma_mul3(a01, a12, a20);
        lemma_mul3(a01, a10, a22);
        lemma_dist_r(a00 * a22, a02 * a20, a11);
        lemma_comm(a00 * a22, a11);
        lemma_comm(a02 * a20, a11);
        lemma_mul3(a11, a00, a22);
        lemma_mul3(a11, a02, a20);
        lemma_dist_r(a02 * a10, a00 * a12, a21);
        lemma_comm(a02 * a10, a21);
        lemma_comm(a00 * a12, a21);
        lemma_mul3(a21, a02, a10);
        lemma_mul3(a21, a00, a12);
        assert((a12 * a20 - a10 * a22) * a01 + (a00 * a22 - a02 * a20) * a11 + (a02 * a10 - a00 * a12) * a21 == a00 * (a11 * a22 - a12 * a21) - a01 * (a10 * a22 - a12 * a20) + a02 * (a10 * a21 - a11 * a20));
        assert(e10 * a01 + e11 * a11 + e12 * a21 == 1);
        lemma_dist_r(a12 * a20, a10 * a22, a02);
        lemma_comm(a12 * a20, a02);
        lemma_comm(a10 * a22, a02);
        lemma_mul3(a02, a12, a20);
        lemma_mul3(a02, a10, a22);
        lemma_dist_r(a00 * a22, a02 * a20, a12);
        lemma_comm(a00 * a22, a12);
        lemma_comm(a02 * a20, a12);
        lemma_mul3(a12, a00, a22);
        lemma_mul3(a12, a02, a20);
        lemma_dist_r(a02 * a10, a00 * a12, a22);
        lemma_comm(a02 * a10, a22);
        lemma_comm(a00 * a12, a22);
        lemma_mul3(a22, a02, a10);
        lemma_mul3(a22, a00, a12);
        assert((a12 * a20 - a10 * a22) * a02 + (a00 * a22 - a02 * a20) * a12 + (a02 * a10 - a00 * a12) * a22 == 0);
        assert(e10 * a02 + e11 * a12 + e12 * a22 == 0);
        lemma_dist_r(a10 * a21, a11 * a20, a00);
        lemma_comm(a10 * a21, a00);
        lemma_comm(a11 * a20, a00);
        lemma_mul3(a00, a10, a21);
        lemma_mul3(a00, a11, a20);
        lemma_dist_r(a01 * a20, a00 * a21, a10);
        lemma_comm(a01 * a20, a10);
        lemma_comm(a00 * a21, a10);
        lemma_mul3(a10, a01, a20);
        lemma_mul3(a10, a00, a21);
        lemma_dist_r(a00 * a11, a01 * a10, a20);
        lemma_comm(a00 * a11, a20);
        lemma_comm(a01 * a10, a20);
        lemma_mul3(a20, a00, a11);
        lemma_mul3(a20, a01, a10);
        assert((a10 * a21 - a11 * a20) * a00 + (a01 * a20 - a00 * a21) * a10 + (a00 * a11 - a01 * a10) * a20 == 0);
        assert(e20 * a00 + e21 * a10 + e22 * a20 == 0);
        lemma_dist_r(a10 * a21, a11 * a20, a01);
        lemma_comm(a10 * a21, a01);
        lemma_comm(a11 * a20, a01);
        lemma_mul3(a01, a10, a21);
        lemma_mul3(a01, a11, a20);
        lemma_dist_r(a01 * a20, a00 * a21, a11);
        lemma_comm(a01 * a20, a11);
        lemma_comm(a00 * a21, a11);
        lemma_mul3(a11, a01, a20);
        lemma_mul3(a11, a00, a21);
        lemma_dist_r(a00 * a11, a01 * a10, a21);
        lemma_comm(a00 * a11, a21);
        lemma_comm(a01 * a10, a21);
        lemma_mul3(a21, a00, a11);
        lemma_mul3(a21, a01, a10);
        assert((a10 * a21 - a11 * a20) * a01 + (a01 * a20 - a00 * a21) * a11 + (a00 * a11 - a01 * a10) * a21 == 0);
        assert(e20 * a01 + e21 * a11 + e22 * a21 == 0);
        lemma_dist_r(a10 * a21, a11 * a20, a02);
        lemma_comm(a10 * a21, a02);
        lemma_comm(a11 * a20, a02);
        lemma_mul3(a02, a10, a21);
        lemma_mul3(a02, a11, a20);
        lemma_dist_r(a01 * a20, a00 * a21, a12);
        lemma_comm(a01 * a20, a12);
        lemma_comm(a00 * a21, a12);
        lemma_mul3(a12, a01, a20);
        lemma_mul3(a12, a00, a21);
        lemma_dist_r(a00 * a11, a01 * a10, a22);
        lemma_comm(a00 * a11, a22);
        lemma_comm(a01 * a10, a22);
        lemma_mul3(a22, a00, a11);
        lemma_mul3(a22, a01, a10);
        assert((a10 * a21 - a11 * a20) * a02 + (a01 * a20 - a00 * a21) * a12 + (a00 * a11 - a01 * a10) * a22 == a00 * (a11 * a22 - a12 * a21) - a01 * (a10 * a22 - a12 * a20) + a02 * (a10 * a21 - a11 * a20));
        assert(e20 * a02 + e21 * a12 + e22 * a22 == 1);
    } else {
        assert(e00 == (a12 * a21 - a11 * a22));
        assert(e01 == (a01 * a22 - a02 * a21));
        assert(e02 == (a02 * a11 - a01 * a12));
        assert(e10 == (a10 * a22 - a12 * a20));
        assert(e11 == (a02 * a20 - a00 * a22));
        assert(e12 == (a00 * a12 - a02 * a10));
        assert(e20 == (a11 * a20 - a10 * a21));
        assert(e21 == (a00 * a21 - a01 * a20));
        assert(e22 == (a01 * a10 - a00 * a11));
        lemma_dist(a00, a11 * a22, a12 * a21);
        lemma_dist(a01, a10 * a22, a12 * a20);
        lemma_dist(a02, a10 * a21, a11 * a20);
        assert(a00 * (a11 * a22 - a12 * a21) - a01 * (a10 * a22 - a12 * a20) + a02 * (a10 * a21 - a11 * a20) == det3(a));
        lemma_dist(a00, a12 * a21, a11 * a22);
        lemma_mul3(a00, a12, a21);
        lemma_mul3(a00, a11, a22);
        lemma_dist(a01, a10 * a22, a12 * a20);
        lemma_mul3(a01, a10, a22);
        lemma_mul3(a01, a12, a20);
        lemma_dist(a02, a11 * a20, a10 * a21);
        lemma_mul3(a02, a11, a20);
        lemma_mul3(a02, a10, a21);
        assert(a00 * (a12 * a21 - a11 * a22) + a01 * (a10 * a22 - a12 * a20) + a02 * (a11 * a20 - a10 * a21) == -(a00 * (a11 * a22 - a12 * a21) - a01 * (a10 * a22 - a12 * a20) + a02 * (a10 * a21 - a11 * a20)));
        assert(a00 * e00 + a01 * e10 + a02 * e20 == 1);
        lemma_dist(a00, a01 * a22, a02 * a21);
        lemma_mul3(a00, a01, a22);
        lemma_mul3(a00, a02, a21);
        lemma_dist(a01, a02 * a20, a00 * a22);
        lemma_mul3(a01, a02, a20);
        lemma_mul3(a01, a00, a22);
        lemma_dist(a02, a00 * a21, a01 * a20);
        lemma_mul3(a02, a00, a21);
        lemma_mul3(a02, a01, a20);
        assert(a00 * (a01 * a22 - a02 * a21) + a01 * (a02 * a20 - a00 * a22) + a02 * (a00 * a21 - a01 * a20) == 0);
        assert(a00 * e01 + a01 * e11 + a02 * e21 == 0);
        lemma_dist(a00, a02 * a11, a01 * a12);
        lemma_mul3(a00, a02, a11);
        lemma_mul3(a00, a01, a12);
        lemma_dist(a01, a00 * a12, a02 * a10);
        lemma_mul3(a01, a00, a12);
        lemma_mul3(a01, a02, a10);
        lemma_dist(a02, a01 * a10, a00 * a11);
        lemma_mul3(a02, a01, a10);
        lemma_mul3(a02, a00, a11);
        assert(a00 * (a02 * a11 - a01 * a12) + a01 * (a00 * a12 - a02 * a10) + a02 * (a01 * a10 - a00 * a11) == 0);
        assert(a00 * e02 + a01 * e12 + a02 * e22 == 0);
        lemma_dist(a10, a12 * a21, a11 * a22);
        lemma_mul3(a10, a12, a21);
        lemma_mul3(a10, a11, a22);
        lemma_dist(a11, a10 * a22, a12 * a20);
        lemma_mul3(a11, a10, a22);
        lemma_mul3(a11, a12, a20);
        lemma_dist(a12, a11 * a20, a10 * a21);
        lemma_mul3(a12, a11, a20);
        lemma_mul3(a12, a10, a21);
        assert(a10 * (a12 * a21 - a11 * a22) + a11 * (a10 * a22 - a12 * a20) + a12 * (a11 * a20 - a10 * a21) == 0);
        assert(a10 * e00 + a11 * e10 + a12 * e20 == 0);
        lemma_dist(a10, a01 * a22, a02 * a21);
        lemma_mul3(a10, a01, a22);
        lemma_mul3(a10, a02, a21);
        lemma_dist(a11, a02 * a20, a00 * a22);
        lemma_mul3(a11, a02, a20);
        lemma_mul3(a11, a00, a22);
        lemma_dist(a12, a00 * a21, a01 * a20);
        lemma_mul3(a12, a00, a21);
        lemma_mul3(a12, a01, a20);
        assert(a10 * (a01 * a22 - a02 * a21) + a11 * (a02 * a20 - a00 * a22) + a12 * (a00 * a21 - a01 * a20) == -(a00 * (a11 * a22 - a12 * a21) - a01 * (a10 * a22 - a12 * a20) + a02 * (a10 * a21 - a11 * a20)));
        assert(a10 * e01 + a11 * e11 + a12 * e21 == 1);
        lemma_dist(a10, a02 * a11, a01 * a12);
        lemma_mul3(a10, a02, a11);
        lemma_mul3(a10, a01, a12);
        lemma_dist(a11, a00 * a12, a02 * a10);
        lemma_mul3(a11, a00, a12);
        lemma_mul3(a11, a02, a10);
        lemma_dist(a12, a01 * a10, a00 * a11);
        lemma_mul3(a12, a01, a10);
        lemma_mul3(a12, a00, a11);
        assert(a10 * (a02 * a11 - a01 * a12) + a11 * (a00 * a12 - a02 * a10) + a12 * (a01 * a10 - a00 * a11) == 0);
        assert(a10 * e02 + a11 * e12 + a12 * e22 == 0);
        lemma_dist(a20, a12 * a21, a11 * a22);
        lemma_mul3(a20, a12, a21);
        lemma_mul3(a20, a11, a22);
        lemma_dist(a21, a10 * a22, a12 * a20);
        lemma_mul3(a21, a10, a22);
        lemma_mul3(a21, a12, a20);
        lemma_dist(a22, a11 * a20, a10 * a21);
        lemma_mul3(a22, a11, a20);
        lemma_mul3(a22, a10, a21);
        assert(a20 * (a12 * a21 - a11 * a22) + a21 * (a10 * a22 - a12 * a20) + a22 * (a11 * a20 - a10 * a21) == 0);
        assert(a20 * e00 + a21 * e10 + a22 * e20 == 0);
        lemma_dist(a20, a01 * a22, a02 * a21);
        lemma_mul3(a20, a01, a22);
        lemma_mul3(a20, a02, a21);
        lemma_dist(a21, a02 * a20, a00 * a22);
        lemma_mul3(a21, a02, a20);
        lemma_mul3(a21, a00, a22);
        lemma_dist(a22, a00 * a21, a01 * a20);
        lemma_mul3(a22, a00, a21);
        lemma_mul3(a22, a01, a20);
        assert(a20 * (a01 * a22 - a02 * a21) + a21 * (a02 * a20 - a00 * a22) + a22 * (a00 * a21 - a01 * a20) == 0);
        assert(a20 * e01 + a21 * e11 + a22 * e21 == 0);
        lemma_dist(a20, a02 * a11, a01 * a12);
        lemma_mul3(a20, a02, a11);
        lemma_mul3(a20, a01, a12);
        lemma_dist(a21, a00 * a12, a02 * a10);
        lemma_mul3(a21, a00, a12);
        lemma_mul3(a21, a02, a10);
        lemma_dist(a22, a01 * a10, a00 * a11);
        lemma_mul3(a22, a01, a10);
        lemma_mul3(a22, a00, a11);
        assert(a20 * (a02 * a11 - a01 * a12) + a21 * (a00 * a12 - a02 * a10) + a22 * (a01 * a10 - a00 * a11) == -(a00 * (a11 * a22 - a12 * a21) - a01 * (a10 * a22 - a12 * a20) + a02 * (a10 * a21 - a11 * a20)));
        assert(a20 * e02 + a21 * e12 + a22 * e22 == 1);
        lemma_dist_r(a12 * a21, a11 * a22, a00);
        lemma_comm(a12 * a21, a00);
        lemma_comm(a11 * a22, a00);
        lemma_mul3(a00, a12, a21);
        lemma_mul3(a00, a11, a22);
        lemma_dist_r(a01 * a22, a02 * a21, a10);
        lemma_comm(a01 * a22, a10);
        lemma_comm(a02 * a21, a10);
        lemma_mul3(a10, a01, a22);
        lemma_mul3(a10, a02, a21);
        lemma_dist_r(a02 * a11, a01 * a12, a20);
        lemma_comm(a02 * a11, a20);
        lemma_comm(a01 * a12, a20);
        lemma_mul3(a20, a02, a11);
        lemma_mul3(a20, a01, a12);
        assert((a12 * a21 - a11 * a22) * a00 + (a01 * a22 - a02 * a21) * a10 + (a02 * a11 - a01 * a12) * a20 == -(a00 * (a11 * a22 - a12 * a21) - a01 * (a10 * a22 - a12 * a20) + a02 * (a10 * a21 - a11 * a20)));
        assert(e00 * a00 + e01 * a10 + e02 * a20 == 1);
        lemma_dist_r(a12 * a21, a11 * a22, a01);
        lemma_comm(a12 * a21, a01);
        lemma_comm(a11 * a22, a01);
        lemma_mul3(a01, a12, a21);
        lemma_mul3(a01, a11, a22);
        lemma_dist_r(a01 * a22, a02 * a21, a11);
        lemma_comm(a01 * a22, a11);
        lemma_comm(a02 * a21, a11);
        lemma_mul3(a11, a01, a22);
        lemma_mul3(a11, a02, a21);
        lemma_dist_r(a02 * a11, a01 * a12, a21);
        lemma_comm(a02 * a11, a21);
        lemma_comm(a01 * a12, a21);
        lemma_mul3(a21, a02, a11);
        lemma_mul3(a21, a01, a12);
        assert((a12 * a21 - a11 * a22) * a01 + (a01 * a22 - a02 * a21) * a11 + (a02 * a11 - a01 * a12) * a21 == 0);
        assert(e00 * a01 + e01 * a11 + e02 * a21 == 0);
        lemma_dist_r(a12 * a21, a11 * a22, a02);
        lemma_comm(a12 * a21, a02);
        lemma_comm(a11 * a22, a02);
        lemma_mul3(a02, a12, a21);
        lemma_mul3(a02, a11, a22);
        lemma_dist_r(a01 * a22, a02 * a21, a12);
        lemma_comm(a01 * a22, a12);
        lemma_comm(a02 * a21, a12);
        lemma_mul3(a12, a01, a22);
        lemma_mul3(a12, a02, a21);
        lemma_dist_r(a02 * a11, a01 * a12, a22);
        lemma_comm(a02 * a11, a22);
        lemma_comm(a01 * a12, a22);
        lemma_mul3(a22, a02, a11);
        lemma_mul3(a22, a01, a12);
        assert((a12 * a21 - a11 * a22) * a02 + (a01 * a22 - a02 * a21) * a12 + (a02 * a11 - a01 * a12) * a22 == 0);
        assert(e00 * a02 + e01 * a12 + e02 * a22 == 0);
        lemma_dist_r(a10 * a22, a12 * a20, a00);
        lemma_comm(a10 * a22, a00);
        lemma_comm(a12 * a20, a00);
        lemma_mul3(a00, a10, a22);
        lemma_mul3(a00, a12, a20);
        lemma_dist_r(a02 * a20, a00 * a22, a10);
        lemma_comm(a02 * a20, a10);
        lemma_comm(a00 * a22, a10);
        lemma_mul3(a10, a02, a20);
        lemma_mul3(a10, a00, a22);
        lemma_dist_r(a00 * a12, a02 * a10, a20);
        lemma_comm(a00 * a12, a20);
        lemma_comm(a02 * a10, a20);
        lemma_mul3(a20, a00, a12);
        lemma_mul3(a20, a02, a10);
        assert((a10 * a22 - a12 * a20) * a00 + (a02 * a20 - a00 * a22) * a10 + (a00 * a12 - a02 * a10) * a20 == 0);
        assert(e10 * a00 + e11 * a10 + e12 * a20 == 0);
        lemma_dist_r(a10 * a22, a12 * a20, a01);
        lemma_comm(a10 * a22, a01);
        lemma_comm(a12 * a20, a01);
        lemma_mul3(a01, a10, a22);
        lemma_mul3(a01, a12, a20);
        lemma_dist_r(a02 * a20, a00 * a22, a11);
        lemma_comm(a02 * a20, a11);
        lemma_comm(a00 * a22, a11);
        lemma_mul3(a11, a02, a20);
        lemma_mul3(a11, a00, a22);
        lemma_dist_r(a00 * a12, a02 * a10, a21);
        lemma_comm(a00 * a12, a21);
        lemma_comm(a02 * a10, a21);
        lemma_mul3(a21, a00, a12);
        lemma_mul3(a21, a02, a10);
        assert((a10 * a22 - a12 * a20) * a01 + (a02 * a20 - a00 * a22) * a11 + (a00 * a12 - a02 * a10) * a21 == -(a00 * (a11 * a22 - a12 * a21) - a01 * (a10 * a22 - a12 * a20) + a02 * (a10 * a21 - a11 * a20)));
        assert(e10 * a01 + e11 * a11 + e12 * a21 == 1);
        lemma_dist_r(a10 * a22, a12 * a20, a02);
        lemma_comm(a10 * a22, a02);
        lemma_comm(a12 * a20, a02);
        lemma_mul3(a02, a10, a22);
        lemma_mul3(a02, a12, a20);
        lemma_dist_r(a02 * a20, a00 * a22, a12);
        lemma_comm(a02 * a20, a12);
        lemma_comm(a00 * a22, a12);
        lemma_mul3(a12, a02, a20);
        lemma_mul3(a12, a00, a22);
        lemma_dist_r(a00 * a12, a02 * a10, a22);
        lemma_comm(a00 * a12, a22);
        lemma_comm(a02 * a10, a22);
        lemma_mul3(a22, a00, a12);
        lemma_mul3(a22, a02, a10);
        assert((a10 * a22 - a12 * a20) * a02 + (a02 * a20 - a00 * a22) * a12 + (a00 * a12 - a02 * a10) * a22 == 0);
        assert(e10 * a02 + e11 * a12 + e12 * a22 == 0);
        lemma_dist_r(a11 * a20, a10 * a21, a00);
        lemma_comm(a11 * a20, a00);
        lemma_comm(a10 * a21, a00);
        lemma_mul3(a00, a11, a20);
        lemma_mul3(a00, a10, a21);
        lemma_dist_r(a00 * a21, a01 * a20, a10);
        lemma_comm(a00 * a21, a10);
        lemma_comm(a01 * a20, a10);
        lemma_mul3(a10, a00, a21);
        lemma_mul3(a10, a01, a20);
        lemma_dist_r(a01 * a10, a00 * a11, a20);
        lemma_comm(a01 * a10, a20);
        lemma_comm(a00 * a11, a20);
        lemma_mul3(a20, a01, a10);
        lemma_mul3(a20, a00, a11);
        assert((a11 * a20 - a10 * a21) * a00 + (a00 * a21 - a01 * a20) * a10 + (a01 * a10 - a00 * a11) * a20 == 0);
        assert(e20 * a00 + e21 * a10 + e22 * a20 == 0);
        lemma_dist_r(a11 * a20, a10 * a21, a01);
        lemma_comm(a11 * a20, a01);
        lemma_comm(a10 * a21, a01);
        lemma_mul3(a01, a11, a20);
        lemma_mul3(a01, a10, a21);
        lemma_dist_r(a00 * a21, a01 * a20, a11);
        lemma_comm(a00 * a21, a11);
        lemma_comm(a01 * a20, a11);
        lemma_mul3(a11, a00, a21);
        lemma_mul3(a11, a01, a20);
        lemma_dist_r(a01 * a10, a00 * a11, a21);
        lemma_comm(a01 * a10, a21);
        lemma_comm(a00 * a11, a21);
        lemma_mul3(a21, a01, a10);
        lemma_mul3(a21, a00, a11);
        assert((a11 * a20 - a10 * a21) * a01 + (a00 * a21 - a01 * a20) * a11 + (a01 * a10 - a00 * a11) * a21 == 0);
        assert(e20 * a01 + e21 * a11 + e22 * a21 == 0);
        lemma_dist_r(a11 * a20, a10 * a21, a02);
        lemma_comm(a11 * a20, a02);
        lemma_comm(a10 * a21, a02);
        lemma_mul3(a02, a11, a20);
        lemma_mul3(a02, a10, a21);
        lemma_dist_r(a00 * a21, a01 * a20, a12);
        lemma_comm(a00 * a21, a12);
        lemma_comm(a01 * a20, a12);
        lemma_mul3(a12, a00, a21);
        lemma_mul3(a12, a01, a20);
        lemma_dist_r(a01 * a10, a00 * a11, a22);
        lemma_comm(a01 * a10, a22);
        lemma_comm(a00 * a11, a22);
        lemma_mul3(a22, a01, a10);
        lemma_mul3(a22, a00, a11);
        assert((a11 * a20 - a10 * a21) * a02 + (a00 * a21 - a01 * a20) * a12 + (a01 * a10 - a00 * a11) * a22 == -(a00 * (a11 * a22 - a12 * a21) - a01 * (a10 * a22 - a12 * a20) + a02 * (a10 * a21 - a11 * a20)));
        assert(e20 * a02 + e21 * a12 + e22 * a22 == 1);
    }
    assert(mprod_is_ident(a, b));
    assert(mprod_is_ident(b, a));
}

/// Exact inverse of the linear part of a transform.
///
/// Over the exact integer scalar an inverse exists precisely for
/// determinant 1 or -1, and then it is the sign-adjusted adjugate: the
/// inverse is returned exactly when the determinant is 1 or -1, and every
/// returned matrix is a proved two-sided exact inverse.
pub fn try_inverse3(a: &Mat3) -> (r: Option<Mat3>)
    requires
        mat3_in_range(*a, TFM_LIMIT as int),
    ensures
        r matches Some(b) ==> is_inverse3(*a, b) && mat3_in_range(b, 131072),
        r is Some <==> det3(*a) == 1 || det3(*a) == -1,
{
    proof {
        lemma_product2(a.m11 as int, a.m22 as int, 256, 256);
        lemma_product2(a.m12 as int, a.m21 as int, 256, 256);
        lemma_product2(a.m10 as int, a.m22 as int, 256, 256);
        lemma_product2(a.m12 as int, a.m20 as int, 256, 256);
        lemma_product2(a.m10 as int, a.m21 as int, 256, 256);
        lemma_product2(a.m11 as int, a.m20 as int, 256, 256);
        lemma_product2(a.m01 as int, a.m22 as int, 256, 256);
        lemma_product2(a.m02 as int, a.m21 as int, 256, 256);
        lemma_product2(a.m01 as int, a.m12 as int, 256, 256);
        lemma_product2(a.m02 as int, a.m11 as int, 256, 256);
        lemma_product2(a.m00 as int, a.m22 as int, 256, 256);
        lemma_product2(a.m02 as int, a.m20 as int, 256, 256);
        lemma_product2(a.m00 as int, a.m12 as int, 256, 256);
        lemma_product2(a.m02 as int, a.m10 as int, 256, 256);
        lemma_product2(a.m00 as int, a.m21 as int, 256, 256);
        lemma_product2(a.m01 as int, a.m20 as int, 256, 256);
        lemma_product2(a.m00 as int, a.m11 as int, 256, 256);
        lemma_product2(a.m01 as int, a.m10 as int, 256, 256);
    }
    let mi0: i64 = a.m11 * a.m22 - a.m12 * a.m21;
    let mi1: i64 = a.m10 * a.m22 - a.m12 * a.m20;
    let mi2: i64 = a.m10 * a.m21 - a.m11 * a.m20;
    proof {
        lemma_product2(a.m00 as int, mi0 as int, 256, 131072);
        lemma_product2(a.m01 as int, mi1 as int, 256, 131072);
        lemma_product2(a.m02 as int, mi2 as int, 256, 131072);
    }
    let det: i64 = a.m00 * mi0 - a.m01 * mi1 + a.m02 * mi2;
    assert(det as int == det3(*a));
    if det != 1 && det != -1 {
        return None;
    }
    let adj = Mat3 {
        m00: a.m11 * a.m22 - a.m12 * a.m21,
        m01: a.m02 * a.m21 - a.m01 * a.m22,
        m02: a.m01 * a.m12 - a.m02 * a.m11,
        m10: a.m12 * a.m20 - a.m10 * a.m22,
        m11: a.m00 * a.m22 - a.m02 * a.m20,
        m12: a.m02 * a.m10 - a.m00 * a.m12,
        m20: a.m10 * a.m21 - a.m11 * a.m20,
        m21: a.m01 * a.m20 - a.m00 * a.m21,
        m22: a.m00 * a.m11 - a.m01 * a.m10,
    };
    let b = if det == 1 {
        adj
    } else {
        Mat3 {
            m00: -adj.m00,
            m01: -adj.m01,
            m02: -adj.m02,
            m10: -adj.m10,
            m11: -adj.m11,
            m12: -adj.m12,
            m20: -adj.m20,
            m21: -adj.m21,
            m22: -adj.m22,
        }
    };
    proof {
        lemma_adjugate_inverse(*a, b, det as int);
    }
    Some(b)
}

/// Multiplication distributes over a three-term sum, on the left.
proof fn lemma_dist3(x: int, u: int, v: int, w: int)
    ensures
        x * (u + v + w) == x * u + x * v + x * w,
{
    assert(x * (u + v + w) == x * u + x * v + x * w) by (nonlinear_arith);
}

/// Multiplication distributes over a three-term sum, on the right.
proof fn lemma_dist3_r(u: int, v: int, w: int, x: int)
    ensures
        (u + v + w) * x == u * x + v * x + w * x,
{
    assert((u + v + w) * x == u * x + v * x + w * x) by (nonlinear_arith);
}

/// Multiplication reassociates.
proof fn lemma_assoc(x: int, y: int, z: int)
    ensures
        x * (y * z) == (x * y) * z,
{
    assert(x * (y * z) == (x * y) * z) by (nonlinear_arith);
}

/// A coefficient equal to one leaves the factor unchanged.
proof fn lemma_unit_coeff(s: int, x: int)
    requires
        s == 1,
    ensures
        s * x == x,
{
    assert(s * x == x) by (nonlinear_arith)
        requires
            s == 1,
    ;
}

/// A coefficient equal to zero annihilates the factor.
proof fn lemma_zero_coeff(s: int, x: int)
    requires
        s == 0,
    ensures
        s * x == 0,
{
    assert(s * x == 0) by (nonlinear_arith)
        requires
            s == 0,
    ;
}

/// A two-sided exact inverse undoes the map, on any coordinates.
pub proof fn lemma_inverse3_applies(am: Mat3, bm: Mat3, v: (int, int, int))
    requires
        is_inverse3(am, bm),
    ensures
        apply3(bm, apply3(am, v)) == v,
        apply3(am, apply3(bm, v)) == v,
{
    let a00 = am.m00 as int;
    let a01 = am.m01 as int;
    let a02 = am.m02 as int;
    let a10 = am.m10 as int;
    let a11 = am.m11 as int;
    let a12 = am.m12 as int;
    let a20 = am.m20 as int;
    let a21 = am.m21 as int;
    let a22 = am.m22 as int;
    let b00 = bm.m00 as int;
    let b01 = bm.m01 as int;
    let b02 = bm.m02 as int;
    let b10 = bm.m10 as int;
    let b11 = bm.m11 as int;
    let b12 = bm.m12 as int;
    let b20 = bm.m20 as int;
    let b21 = bm.m21 as int;
    let b22 = bm.m22 as int;
    let v0 = v.0;
    let v1 = v.1;
    let v2 = v.2;
    let w = apply3(am, v);
    assert(w.0 == a00 * v0 + a01 * v1 + a02 * v2);
    assert(w.1 == a10 * v0 + a11 * v1 + a12 * v2);
    assert(w.2 == a20 * v0 + a21 * v1 + a22 * v2);
    lemma_dist3(b00, a00 * v0, a01 * v1, a02 * v2);
    lemma_assoc(b00, a00, v0);
    lemma_assoc(b00, a01, v1);
    lemma_assoc(b00, a02, v2);
    lemma_dist3(b01, a10 * v0, a11 * v1, a12 * v2);
    lemma_assoc(b01, a10, v0);
    lemma_assoc(b01, a11, v1);
    lemma_assoc(b01, a12, v2);
    lemma_dist3(b02, a20 * v0, a21 * v1, a22 * v2);
    lemma_assoc(b02, a20, v0);
    lemma_assoc(b02, a21, v1);
    lemma_assoc(b02, a22, v2);
    lemma_dist3_r(b00 * a00, b01 * a10, b02 * a20, v0);
    lemma_unit_coeff(b00 * a00 + b01 * a10 + b02 * a20, v0);
    lemma_dist3_r(b00 * a01, b01 * a11, b02 * a21, v1);
    lemma_zero_coeff(b00 * a01 + b01 * a11 + b02 * a21, v1);
    lemma_dist3_r(b00 * a02, b01 * a12, b02 * a22, v2);
    lemma_zero_coeff(b00 * a02 + b01 * a12 + b02 * a22, v2);
    assert(b00 * w.0 + b01 * w.1 + b02 * w.2 == v0);
    assert(apply3(bm, w).0 == v0);
    lemma_dist3(b10, a00 * v0, a01 * v1, a02 * v2);
    lemma_assoc(b10, a00, v0);
    lemma_assoc(b10, a01, v1);
    lemma_assoc(b10, a02, v2);
    lemma_dist3(b11, a10 * v0, a11 * v1, a12 * v2);
    lemma_assoc(b11, a10, v0);
    lemma_assoc(b11, a11, v1);
    lemma_assoc(b11, a12, v2);
    lemma_dist3(b12, a20 * v0, a21 * v1, a22 * v2);
    lemma_assoc(b12, a20, v0);
    lemma_assoc(b12, a21, v1);
    lemma_assoc(b12, a22, v2);
    lemma_dist3_r(b10 * a00, b11 * a10, b12 * a20, v0);
    lemma_zero_coeff(b10 * a00 + b11 * a10 + b12 * a20, v0);
    lemma_dist3_r(b10 * a01, b11 * a11, b12 * a21, v1);
    lemma_unit_coeff(b10 * a01 + b11 * a11 + b12 * a21, v1);
    lemma_dist3_r(b10 * a02, b11 * a12, b12 * a22, v2);
    lemma_zero_coeff(b10 * a02 + b11 * a12 + b12 * a22, v2);
    assert(b10 * w.0 + b11 * w.1 + b12 * w.2 == v1);
    assert(apply3(bm, w).1 == v1);
    lemma_dist3(b20, a00 * v0, a01 * v1, a02 * v2);
    lemma_assoc(b20, a00, v0);
    lemma_assoc(b20, a01, v1);
    lemma_assoc(b20, a02, v2);
    lemma_dist3(b21, a10 * v0, a11 * v1, a12 * v2);
    lemma_assoc(b21, a10, v0);
    lemma_assoc(b21, a11, v1);
    lemma_assoc(b21, a12, v2);
    lemma_dist3(b22, a20 * v0, a21 * v1, a22 * v2);
    lemma_assoc(b22, a20, v0);
    lemma_assoc(b22, a21, v1);
    lemma_assoc(b22, a22, v2);
    lemma_dist3_r(b20 * a00, b21 * a10, b22 * a20, v0);
    lemma_zero_coeff(b20 * a00 + b21 * a10 + b22 * a20, v0);
    lemma_dist3_r(b20 * a01, b21 * a11, b22 * a21, v1);
    lemma_zero_coeff(b20 * a01 + b21 * a11 + b22 * a21, v1);
    lemma_dist3_r(b20 * a02, b21 * a12, b22 * a22, v2);
    lemma_unit_coeff(b20 * a02 + b21 * a12 + b22 * a22, v2);
    assert(b20 * w.0 + b21 * w.1 + b22 * w.2 == v2);
    assert(apply3(bm, w).2 == v2);
    assert(apply3(bm, apply3(am, v)) == v);
    let u = apply3(bm, v);
    assert(u.0 == b00 * v0 + b01 * v1 + b02 * v2);
    assert(u.1 == b10 * v0 + b11 * v1 + b12 * v2);
    assert(u.2 == b20 * v0 + b21 * v1 + b22 * v2);
    lemma_dist3(a00, b00 * v0, b01 * v1, b02 * v2);
    lemma_assoc(a00, b00, v0);
    lemma_assoc(a00, b01, v1);
    lemma_assoc(a00, b02, v2);
    lemma_dist3(a01, b10 * v0, b11 * v1, b12 * v2);
    lemma_assoc(a01, b10, v0);
    lemma_assoc(a01, b11, v1);
    lemma_assoc(a01, b12, v2);
    lemma_dist3(a02, b20 * v0, b21 * v1, b22 * v2);
    lemma_assoc(a02, b20, v0);
    lemma_assoc(a02, b21, v1);
    lemma_assoc(a02, b22, v2);
    lemma_dist3_r(a00 * b00, a01 * b10, a02 * b20, v0);
    lemma_unit_coeff(a00 * b00 + a01 * b10 + a02 * b20, v0);
    lemma_dist3_r(a00 * b01, a01 * b11, a02 * b21, v1);
    lemma_zero_coeff(a00 * b01 + a01 * b11 + a02 * b21, v1);
    lemma_dist3_r(a00 * b02, a01 * b12, a02 * b22, v2);
    lemma_zero_coeff(a00 * b02 + a01 * b12 + a02 * b22, v2);
    assert(a00 * u.0 + a01 * u.1 + a02 * u.2 == v0);
    assert(apply3(am, u).0 == v0);
    lemma_dist3(a10, b00 * v0, b01 * v1, b02 * v2);
    lemma_assoc(a10, b00, v0);
    lemma_assoc(a10, b01, v1);
    lemma_assoc(a10, b02, v2);
    lemma_dist3(a11, b10 * v0, b11 * v1, b12 * v2);
    lemma_assoc(a11, b10, v0);
    lemma_assoc(a11, b11, v1);
    lemma_assoc(a11, b12, v2);
    lemma_dist3(a12, b20 * v0, b21 * v1, b22 * v2);
    lemma_assoc(a12, b20, v0);
    lemma_assoc(a12, b21, v1);
    lemma_assoc(a12, b22, v2);
    lemma_dist3_r(a10 * b00, a11 * b10, a12 * b20, v0);
    lemma_zero_coeff(a10 * b00 + a11 * b10 + a12 * b20, v0);
    lemma_dist3_r(a10 * b01, a11 * b11, a12 * b21, v1);
    lemma_unit_coeff(a10 * b01 + a11 * b11 + a12 * b21, v1);
    lemma_dist3_r(a10 * b02, a11 * b12, a12 * b22, v2);
    lemma_zero_coeff(a10 * b02 + a11 * b12 + a12 * b22, v2);
    assert(a10 * u.0 + a11 * u.1 + a12 * u.2 == v1);
    assert(apply3(am, u).1 == v1);
    lemma_dist3(a20, b00 * v0, b01 * v1, b02 * v2);
    lemma_assoc(a20, b00, v0);
    lemma_assoc(a20, b01, v1);
    lemma_assoc(a20, b02, v2);
    lemma_dist3(a21, b10 * v0, b11 * v1, b12 * v2);
    lemma_assoc(a21, b10, v0);
    lemma_assoc(a21, b11, v1);
    lemma_assoc(a21, b12, v2);
    lemma_dist3(a22, b20 * v0, b21 * v1, b22 * v2);
    lemma_assoc(a22, b20, v0);
    lemma_assoc(a22, b21, v1);
    lemma_assoc(a22, b22, v2);
    lemma_dist3_r(a20 * b00, a21 * b10, a22 * b20, v0);
    lemma_zero_coeff(a20 * b00 + a21 * b10 + a22 * b20, v0);
    lemma_dist3_r(a20 * b01, a21 * b11, a22 * b21, v1);
    lemma_zero_coeff(a20 * b01 + a21 * b11 + a22 * b21, v1);
    lemma_dist3_r(a20 * b02, a21 * b12, a22 * b22, v2);
    lemma_unit_coeff(a20 * b02 + a21 * b12 + a22 * b22, v2);
    assert(a20 * u.0 + a21 * u.1 + a22 * u.2 == v2);
    assert(apply3(am, u).2 == v2);
    assert(apply3(am, apply3(bm, v)) == v);
}

/// Converting a local point to the global frame and back returns the
/// original point, for every shape whose stored inverse is certified —
/// which construction guarantees: the inverse undoes the affine map
/// exactly.
pub proof fn lemma_to_local_inverts_to_global(t: &Trapezoid, p: Point3, q: Point3)
    requires
        is_inverse3(t.linear(), t.linear_inv()),
        pt3(q) == t.global_of(p),
    ensures
        t.local_of(q) == pt3(p),
{
    let lv = (t.translation().x as int, t.translation().y as int, t.translation().z as int);
    assert(tsub(tadd(apply3(t.linear(), pt3(p)), lv), lv) == apply3(t.linear(), pt3(p)));
    lemma_inverse3_applies(t.linear(), t.linear_inv(), pt3(p));
}

/// Converting a global point to the local frame and back returns the
/// original point, for every constructed shape.
pub proof fn lemma_to_global_inverts_to_local(t: &Trapezoid, p: Point3, q: Point3)
    requires
        is_inverse3(t.linear(), t.linear_inv()),
        pt3(q) == t.local_of(p),
    ensures
        t.global_of(q) == pt3(p),
{
    let lv = (t.translation().x as int, t.translation().y as int, t.translation().z as int);
    lemma_inverse3_applies(t.linear(), t.linear_inv(), tsub(pt3(p), lv));
    assert(apply3(t.linear(), pt3(q)) == tsub(pt3(p), lv));
    assert(tadd(tsub(pt3(p), lv), lv) == pt3(p));
}

/// A trapezoidal sensor: four ordered corners in the local frame and an
/// invertible affine transform from the local to the global frame.
pub struct Trapezoid {
    points: Vec<Point3>,
    l: Mat3,
    t: Vector3,
    l_inv: Mat3,
}

impl Trapezoid {
    /// Every live shape is well-formed: four in-range corners, an
    /// in-range transform, and a certified two-sided inverse.
    #[verifier::type_invariant]
    pub closed spec fn wf(&self) -> bool {
        &&& self.points@.len() == 4
        &&& forall|i: int| 0 <= i < 4 ==> pt_in_range(#[trigger] self.points@[i], COORD_LIMIT as int)
        &&& mat3_in_range(self.l, TFM_LIMIT as int)
        &&& vec_in_range(self.t, COORD_LIMIT as int)
        &&& mat3_in_range(self.l_inv, 131072)
        &&& is_inverse3(self.l, self.l_inv)
    }

    /// The four corner points, in their stored order.
    pub closed spec fn corners(&self) -> Seq<Point3> {
        self.points@
    }

    /// The linear part of the local-to-global transform.
    pub closed spec fn linear(&self) -> Mat3 {
        self.l
    }

    /// The translation part of the local-to-global transform.
    pub closed spec fn translation(&self) -> Vector3 {
        self.t
    }

    /// The stored exact inverse of the linear part.
    pub closed spec fn linear_inv(&self) -> Mat3 {
        self.l_inv
    }

    /// Builds a trapezoid from four ordered local-frame corners and the
    /// affine transform `p -> tfm_matrix * p + translation`.
    ///
    /// Succeeds exactly when the linear part has an exact inverse, that
    /// is when its determinant is 1 or -1, and fails with
    /// `ConstructionError::NotInvertible` otherwise, so every live
    /// instance can convert both ways.
    pub fn new(points: Vec<Point3>, tfm_matrix: Mat3, translation: Vector3) -> (r: Result<
        Trapezoid,
        ConstructionError,
    >)
        requires
            points@.len() == 4,
            forall|i: int| 0 <= i < 4 ==> pt_in_range(#[trigger] points@[i], COORD_LIMIT as int),
            mat3_in_range(tfm_matrix, TFM_LIMIT as int),
            vec_in_range(translation, COORD_LIMIT as int),
        ensures
            r matches Ok(t) ==> t.corners() == points@ && t.linear() == tfm_matrix
                && t.translation() == translation && is_inverse3(tfm_matrix, t.linear_inv())
                && mat3_in_range(t.linear_inv(), 131072),
            r is Ok <==> det3(tfm_matrix) == 1 || det3(tfm_matrix) == -1,
    {
        match try_inverse3(&tfm_matrix) {
            Some(inv) => Ok(
                Trapezoid { points, l: tfm_matrix, t: translation, l_inv: inv },
            ),
            None => Err(ConstructionError::NotInvertible),
        }
    }

    /// The global image of a local point, exactly.
    fn global_point(&self, p: Point3) -> (r: Point3)
        requires
            pt_in_range(p, COORD_LIMIT as int),
        ensures
            pt3(r) == tadd(apply3(self.linear(), pt3(p)), vv3(self.translation())),
            pt_in_range(r, GLOBAL_LIMIT as int),
    {
        proof {
            use_type_invariant(self);
            lemma_product2(self.l.m00 as int, p.x as int, 256, 536870912);
            lemma_product2(self.l.m01 as int, p.y as int, 256, 536870912);
            lemma_product2(self.l.m02 as int, p.z as int, 256, 536870912);
            lemma_product2(self.l.m10 as int, p.x as int, 256, 536870912);
            lemma_product2(self.l.m11 as int, p.y as int, 256, 536870912);
            lemma_product2(self.l.m12 as int, p.z as int, 256, 536870912);
            lemma_product2(self.l.m20 as int, p.x as int, 256, 536870912);
            lemma_product2(self.l.m21 as int, p.y as int, 256, 536870912);
            lemma_product2(self.l.m22 as int, p.z as int, 256, 536870912);
        }
        Point3 {
            x: self.l.m00 * p.x + self.l.m01 * p.y + self.l.m02 * p.z + self.t.x,
            y: self.l.m10 * p.x + self.l.m11 * p.y + self.l.m12 * p.z + self.t.y,
            z: self.l.m20 * p.x + self.l.m21 * p.y + self.l.m22 * p.z + self.t.z,
        }
    }

    /// The local image of a global point, exactly.
    fn local_point(&self, p: Point3) -> (r: Point3)
        requires
            pt_in_range(p, GLOBAL_LIMIT as int),
        ensures
            pt3(r) == apply3(self.linear_inv(), tsub(pt3(p), vv3(self.translation()))),
            pt_in_range(r, 864902234687668224),
    {
        proof {
            use_type_invariant(self);
        }
        let dx: i64 = p.x - self.t.x;
        let dy: i64 = p.y - self.t.y;
        let dz: i64 = p.z - self.t.z;
        proof {
            lemma_product2(self.l_inv.m00 as int, dx as int, 131072, 2199560126464);
            lemma_product2(self.l_inv.m01 as int, dy as int, 131072, 2199560126464);
            lemma_product2(self.l_inv.m02 as int, dz as int, 131072, 2199560126464);
            lemma_product2(self.l_inv.m10 as int, dx as int, 131072, 2199560126464);
            lemma_product2(self.l_inv.m11 as int, dy as int, 131072, 2199560126464);
            lemma_product2(self.l_inv.m12 as int, dz as int, 131072, 2199560126464);
            lemma_product2(self.l_inv.m20 as int, dx as int, 131072, 2199560126464);
            lemma_product2(self.l_inv.m21 as int, dy as int, 131072, 2199560126464);
            lemma_product2(self.l_inv.m22 as int, dz as int, 131072, 2199560126464);
        }
        Point3 {
            x: self.l_inv.m00 * dx + self.l_inv.m01 * dy + self.l_inv.m02 * dz,
            y: self.l_inv.m10 * dx + self.l_inv.m11 * dy + self.l_inv.m12 * dz,
            z: self.l_inv.m20 * dx + self.l_inv.m21 * dy + self.l_inv.m22 * dz,
        }
    }
}

impl Transform for Trapezoid {
    open spec fn accepts(&self, p: Point3) -> bool {
        pt_in_range(p, GLOBAL_LIMIT as int)
    }

    open spec fn accepts_local(&self, p: Point3) -> bool {
        pt_in_range(p, COORD_LIMIT as int)
    }

    open spec fn global_of(&self, p: Point3) -> (int, int, int) {
        tadd(apply3(self.linear(), pt3(p)), vv3(self.translation()))
    }

    open spec fn local_of(&self, p: Point3) -> (int, int, int) {
        apply3(self.linear_inv(), tsub(pt3(p), vv3(self.translation())))
    }

    open spec fn contains_local_at(&self, m: (int, int, int)) -> bool {
        quad_contains_spec(self.corners(), m)
    }

    fn to_global(&self, input_point: Point3) -> (r: Point3) {
        self.global_point(input_point)
    }

    fn to_local(&self, input_point: Point3) -> (r: Point3) {
        self.local_point(input_point)
    }

    fn contains_from_global(&self, input_point: Point3) -> (r: Result<bool, GeometryError>) {
        let local = self.local_point(input_point);
        proof {
            use_type_invariant(self);
        }
        Ok(quadralateral_contains(&self.points, &local))
    }

    fn contains_from_local(&self, input: &Point3) -> (r: Result<bool, GeometryError>) {
        proof {
            use_type_invariant(self);
        }
        Ok(quadralateral_contains(&self.points, input))
    }
}

impl Plane for Trapezoid {
    open spec fn plane_accepts(&self, p: Point3) -> bool {
        pt_in_range(p, COORD_LIMIT as int)
    }

    open spec fn normal_of(&self) -> (int, int, int) {
        scross(
            tsub(pt3(self.corners()[1]), pt3(self.corners()[0])),
            tsub(pt3(self.corners()[2]), pt3(self.corners()[0])),
        )
    }

    open spec fn on_plane_at(&self, p: Point3) -> bool {
        sdot3(self.normal_of(), tsub(pt3(p), pt3(self.corners()[0]))) == 0
    }

    fn plane(&self) -> (r: Vector3) {
        proof {
            use_type_invariant(self);
        }
        plane_normal_vector(&self.points[0], &self.points[1], &self.points[2])
    }

    fn on_plane(&self, input_point: &Point3) -> (r: Result<bool, GeometryError>) {
        proof {
            use_type_invariant(self);
        }
        let n = self.plane();
        proof {
            let c0 = self.points@[0];
            let c1 = self.points@[1];
            let c2 = self.points@[2];
            lemma_product2(c1.y - c0.y, c2.z - c0.z, 1073741824, 1073741824);
            lemma_product2(c1.z - c0.z, c2.y - c0.y, 1073741824, 1073741824);
            lemma_product2(c1.z - c0.z, c2.x - c0.x, 1073741824, 1073741824);
            lemma_product2(c1.x - c0.x, c2.z - c0.z, 1073741824, 1073741824);
            lemma_product2(c1.x - c0.x, c2.y - c0.y, 1073741824, 1073741824);
            lemma_product2(c1.y - c0.y, c2.x - c0.x, 1073741824, 1073741824);
            assert(vec_in_range(n, 2305843009213693952));
        }
        let v = vector3_from_points(&self.points[0], input_point);
        let d = dot(&n, &v);
        if d == 0 {
            Ok(true)
        } else {
            Err(GeometryError::OffPlane)
        }
    }
}

} // verus!
