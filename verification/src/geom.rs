//! Planar-sensor geometry over exact integer coordinates: position
//! vectors, dot and cross products, the quadrilateral containment test and
//! the corner-ordering normalization it depends on, and the two capability
//! traits (plane and frame transform) that sensor shapes implement.

use vstd::prelude::*;

use crate::GeometryError;

verus! {

/// Largest coordinate magnitude the wide (`i128`-accumulating) geometric
/// queries accept; a machine limit, far beyond any physical sensor.
pub const GEOM_LIMIT: i64 = 1152921504606846976;

/// Largest coordinate magnitude accepted where a result must itself fit
/// an `i64` component (normal vectors, transform inputs).
pub const COORD_LIMIT: i64 = 536870912;

/// A 3-dimensional point with exact integer coordinates.
#[derive(Clone, Copy, Debug, PartialEq, Eq, Structural)]
pub struct Point3 {
    pub x: i64,
    pub y: i64,
    pub z: i64,
}

/// A 3-dimensional vector with exact integer components.
#[derive(Clone, Copy, Debug, PartialEq, Eq, Structural)]
pub struct Vector3 {
    pub x: i64,
    pub y: i64,
    pub z: i64,
}

/// The mathematical coordinates of a point.
pub open spec fn pt3(p: Point3) -> (int, int, int) {
    (p.x as int, p.y as int, p.z as int)
}

/// The mathematical components of a vector.
pub open spec fn vv3(v: Vector3) -> (int, int, int) {
    (v.x as int, v.y as int, v.z as int)
}

/// Componentwise difference of coordinate triples.
pub open spec fn tsub(a: (int, int, int), b: (int, int, int)) -> (int, int, int) {
    (a.0 - b.0, a.1 - b.1, a.2 - b.2)
}

/// Dot product of coordinate triples.
pub open spec fn sdot3(a: (int, int, int), b: (int, int, int)) -> int {
    a.0 * b.0 + a.1 * b.1 + a.2 * b.2
}

/// Cross product of coordinate triples.
pub open spec fn scross(a: (int, int, int), b: (int, int, int)) -> (int, int, int) {
    (a.1 * b.2 - a.2 * b.1, a.2 * b.0 - a.0 * b.2, a.0 * b.1 - a.1 * b.0)
}

/// Squared distance between two points.
pub open spec fn sdist2(p: Point3, q: Point3) -> int {
    sdot3(tsub(pt3(q), pt3(p)), tsub(pt3(q), pt3(p)))
}

/// All coordinates of `p` lie in `[-b, b]`.
pub open spec fn pt_in_range(p: Point3, b: int) -> bool {
    -b <= p.x <= b && -b <= p.y <= b && -b <= p.z <= b
}

/// All components of `v` lie in `[-b, b]`.
pub open spec fn vec_in_range(v: Vector3, b: int) -> bool {
    -b <= v.x <= b && -b <= v.y <= b && -b <= v.z <= b
}

/// Bounded factors give a bounded product.
proof fn lemma_bounded_product(x: int, y: int, b: int)
    requires
        b >= 0,
        -b <= x <= b,
        -b <= y <= b,
    ensures
        -(b * b) <= x * y <= b * b,
{
    assert(-(b * b) <= x * y <= b * b) by (nonlinear_arith)
        requires
            b >= 0,
            -b <= x <= b,
            -b <= y <= b,
    ;
}

/// Position vector from `p1` to `p2`: the difference `p2 - p1`, so that
/// the vector rooted at a corner `A` towards a point `M` is `M - A`.
pub fn vector3_from_points(p1: &Point3, p2: &Point3) -> (r: Vector3)
    requires
        i64::MIN <= p2.x - p1.x <= i64::MAX,
        i64::MIN <= p2.y - p1.y <= i64::MAX,
        i64::MIN <= p2.z - p1.z <= i64::MAX,
    ensures
        vv3(r) == tsub(pt3(*p2), pt3(*p1)),
{
    Vector3 { x: p2.x - p1.x, y: p2.y - p1.y, z: p2.z - p1.z }
}

/// Exact dot product, accumulated in `i128`.
pub fn dot(a: &Vector3, b: &Vector3) -> (r: i128)
    requires
        vec_in_range(*a, 2 * GEOM_LIMIT as int),
        vec_in_range(*b, 2 * GEOM_LIMIT as int),
    ensures
        r as int == sdot3(vv3(*a), vv3(*b)),
{
    let ax: i128 = a.x as i128;
    let ay: i128 = a.y as i128;
    let az: i128 = a.z as i128;
    let bx: i128 = b.x as i128;
    let by: i128 = b.y as i128;
    let bz: i128 = b.z as i128;
    proof {
        lemma_bounded_product(ax as int, bx as int, 2305843009213693952int);
        lemma_bounded_product(ay as int, by as int, 2305843009213693952int);
        lemma_bounded_product(az as int, bz as int, 2305843009213693952int);
    }
    let x: i128 = ax * bx;
    let y: i128 = ay * by;
    let z: i128 = az * bz;
    x + y + z
}

/// Vector normal to the plane through three points: the cross product of
/// the two in-plane position vectors rooted at `p1`.
pub fn plane_normal_vector(p1: &Point3, p2: &Point3, p3: &Point3) -> (r: Vector3)
    requires
        pt_in_range(*p1, COORD_LIMIT as int),
        pt_in_range(*p2, COORD_LIMIT as int),
        pt_in_range(*p3, COORD_LIMIT as int),
    ensures
        vv3(r) == scross(tsub(pt3(*p2), pt3(*p1)), tsub(pt3(*p3), pt3(*p1))),
{
    let v1 = vector3_from_points(p1, p2);
    let v2 = vector3_from_points(p1, p3);
    proof {
        lemma_bounded_product(v1.y as int, v2.z as int, 1073741824int);
        lemma_bounded_product(v1.z as int, v2.y as int, 1073741824int);
        lemma_bounded_product(v1.z as int, v2.x as int, 1073741824int);
        lemma_bounded_product(v1.x as int, v2.z as int, 1073741824int);
        lemma_bounded_product(v1.x as int, v2.y as int, 1073741824int);
        lemma_bounded_product(v1.y as int, v2.x as int, 1073741824int);
    }
    Vector3 {
        x: v1.y * v2.z - v1.z * v2.y,
        y: v1.z * v2.x - v1.x * v2.z,
        z: v1.x * v2.y - v1.y * v2.x,
    }
}

/// Exact squared distance between two points.
///
/// Comparisons of squared distances order exactly as comparisons of
/// distances, so the corner-ordering heuristic uses this directly and no
/// square root is taken.
pub fn distance_squared(p1: &Point3, p2: &Point3) -> (r: i128)
    requires
        pt_in_range(*p1, GEOM_LIMIT as int),
        pt_in_range(*p2, GEOM_LIMIT as int),
    ensures
        r as int == sdist2(*p1, *p2),
{
    let pv = vector3_from_points(p1, p2);
    dot(&pv, &pv)
}

/// The projection test: with corners `[A, B, C, D]` ordered so that `D`
/// is diagonally opposite `A`, the point `M` lies inside the
/// quadrilateral spanned by `AB` and `AD` exactly when both projections
/// of `AM` fall strictly between the bounds.
pub open spec fn quad_contains_spec(pts: Seq<Point3>, m: (int, int, int)) -> bool {
    let am = tsub(m, pt3(pts[0]));
    let ab = tsub(pt3(pts[1]), pt3(pts[0]));
    let ad = tsub(pt3(pts[3]), pt3(pts[0]));
    &&& 0 < sdot3(am, ab)
    &&& sdot3(am, ab) < sdot3(ab, ab)
    &&& 0 < sdot3(am, ad)
    &&& sdot3(am, ad) < sdot3(ad, ad)
}

/// Whether `check_point` falls within the XY bounds of the sensor whose
/// four corners are `points`.
///
/// Only the two in-plane projections are tested: a point off the sensor
/// plane can still report contained, and callers needing full containment
/// must also consult the plane capability's on-plane test.
pub fn quadralateral_contains(points: &Vec<Point3>, check_point: &Point3) -> (r: bool)
    requires
        points@.len() == 4,
        forall|i: int| 0 <= i < 4 ==> pt_in_range(#[trigger] points@[i], GEOM_LIMIT as int),
        pt_in_range(*check_point, GEOM_LIMIT as int),
    ensures
        r == quad_contains_spec(points@, pt3(*check_point)),
{
    let am_vec = vector3_from_points(&points[0], check_point);
    let ab_vec = vector3_from_points(&points[0], &points[1]);
    let ad_vec = vector3_from_points(&points[0], &points[3]);
    let am_dot = dot(&am_vec, &ab_vec);
    if 0 < am_dot {
        if am_dot < dot(&ab_vec, &ab_vec) {
            let am_dot_d = dot(&am_vec, &ad_vec);
            if 0 < am_dot_d {
                if am_dot_d < dot(&ad_vec, &ad_vec) {
                    return true;
                }
            }
        }
    }
    false
}

/// Index (1, 2 or 3) of the corner farthest from corner 0, the first of
/// the strictly farthest winning as the scan proceeds upward.
pub open spec fn far_index(pts: Seq<Point3>) -> int {
    let d1 = sdist2(pts[1], pts[0]);
    let d2 = sdist2(pts[2], pts[0]);
    let d3 = sdist2(pts[3], pts[0]);
    if d2 > d1 {
        if d3 > d2 {
            3
        } else {
            2
        }
    } else {
        if d3 > d1 {
            3
        } else {
            1
        }
    }
}

/// The corner order after normalization: the farthest-from-corner-0
/// corner swapped into index 3, all else untouched.
pub open spec fn organized(pts: Seq<Point3>) -> Seq<Point3> {
    let k = far_index(pts);
    if k == 3 {
        pts
    } else {
        pts.update(3, pts[k]).update(k, pts[3])
    }
}

/// Normalizes four sensor corners so that the containment test's
/// diagonal assumption (corner 3 opposite corner 0) holds.
///
/// The farthest corner from corner 0 is taken as the diagonal opposite
/// and swapped into index 3. Known limitation, kept deliberately: for a
/// quadrilateral of very small height relative to its width this
/// farthest-from-one-corner heuristic can pick the wrong diagonal; a
/// general solution needs all pairwise distances.
pub fn organize_points(input_points: &mut Vec<Point3>)
    requires
        old(input_points)@.len() == 4,
        forall|i: int|
            0 <= i < 4 ==> pt_in_range(#[trigger] old(input_points)@[i], GEOM_LIMIT as int),
    ensures
        final(input_points)@ == organized(old(input_points)@),
        final(input_points)@.len() == 4,
{
    let d1 = distance_squared(&input_points[1], &input_points[0]);
    let d2 = distance_squared(&input_points[2], &input_points[0]);
    let d3 = distance_squared(&input_points[3], &input_points[0]);
    let mut max_val = d1;
    let mut max_index: usize = 1;
    if d2 > max_val {
        max_val = d2;
        max_index = 2;
    }
    if d3 > max_val {
        max_val = d3;
        max_index = 3;
    }
    assert(max_index as int == far_index(input_points@));
    if max_index != 3 {
        let copy = input_points[3];
        let other = input_points[max_index];
        input_points.set(3, other);
        input_points.set(max_index, copy);
        proof {
            assert(input_points@ =~= organized(old(input_points)@));
        }
    } else {
        proof {
            assert(input_points@ =~= organized(old(input_points)@));
        }
    }
}

/// The plane capability of a sensor shape: its normal vector and an
/// exact on-plane test.
pub trait Plane: Sized {
    /// Points the on-plane test accepts (a machine-range envelope).
    spec fn plane_accepts(&self, p: Point3) -> bool;

    /// The shape's plane normal, as exact coordinates.
    spec fn normal_of(&self) -> (int, int, int);

    /// Whether `p` lies exactly on the shape's plane.
    spec fn on_plane_at(&self, p: Point3) -> bool;

    /// The normal vector of the sensor plane.
    fn plane(&self) -> (r: Vector3)
        ensures
            vv3(r) == self.normal_of(),
    ;

    /// Checks that a given point is located on the plane: `Ok(true)` when
    /// it lies exactly on it, an error otherwise.
    fn on_plane(&self, input_point: &Point3) -> (r: Result<bool, GeometryError>)
        requires
            self.plane_accepts(*input_point),
        ensures
            r matches Ok(b) ==> b && self.on_plane_at(*input_point),
            r is Err ==> !self.on_plane_at(*input_point),
    ;
}

/// The frame-transform capability of a sensor shape: conversions between
/// the global frame and the sensor-local frame, and containment checks in
/// either frame.
pub trait Transform: Sized {
    /// Global points the transform accepts (a machine-range envelope).
    spec fn accepts(&self, p: Point3) -> bool;

    /// Local points the containment test accepts.
    spec fn accepts_local(&self, p: Point3) -> bool;

    /// Exact coordinates of the global image of `p`.
    spec fn global_of(&self, p: Point3) -> (int, int, int);

    /// Exact coordinates of the local image of `p`.
    spec fn local_of(&self, p: Point3) -> (int, int, int);

    /// Whether the local coordinates `m` fall within the sensor bounds.
    spec fn contains_local_at(&self, m: (int, int, int)) -> bool;

    /// Converts a point in the local reference frame of the sensor to the
    /// global reference frame.
    fn to_global(&self, input_point: Point3) -> (r: Point3)
        requires
            self.accepts_local(input_point),
        ensures
            pt3(r) == self.global_of(input_point),
            self.accepts(r),
    ;

    /// Converts a point in the global reference frame to the local
    /// reference frame of the sensor.
    fn to_local(&self, input_point: Point3) -> (r: Point3)
        requires
            self.accepts(input_point),
        ensures
            pt3(r) == self.local_of(input_point),
    ;

    /// Checks if a global point is contained within the localized bounds
    /// of the sensor: the point is converted to the local frame and the
    /// local containment test decides. Construction admits only shapes
    /// with an invertible transform, so the conversion — and with it this
    /// check — always succeeds on an accepted point.
    fn contains_from_global(&self, input_point: Point3) -> (r: Result<bool, GeometryError>)
        requires
            self.accepts(input_point),
        ensures
            r is Ok,
            r matches Ok(b) ==> b == self.contains_local_at(self.local_of(input_point)),
    ;

    /// Checks if a local point is contained within the bounds of the
    /// sensor; on an accepted point the check always succeeds.
    fn contains_from_local(&self, input: &Point3) -> (r: Result<bool, GeometryError>)
        requires
            self.accepts_local(*input),
        ensures
            r is Ok,
            r matches Ok(b) ==> b == self.contains_local_at(pt3(*input)),
    ;
}

} // verus!
