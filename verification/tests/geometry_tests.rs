use kalman_rs::ConstructionError;
use kalman_rs::GeometryError;
use kalman_rs::Mat3;
use kalman_rs::Plane;
use kalman_rs::Point3;
use kalman_rs::Transform;
use kalman_rs::Trapezoid;
use kalman_rs::Vector3;
use kalman_rs::distance_squared;
use kalman_rs::organize_points;
use kalman_rs::plane_normal_vector;
use kalman_rs::quadralateral_contains;
use kalman_rs::vector3_from_points;

fn p(x: i64, y: i64, z: i64) -> Point3 {
    Point3 { x, y, z }
}

fn ident3() -> Mat3 {
    Mat3 { m00: 1, m01: 0, m02: 0, m10: 0, m11: 1, m12: 0, m20: 0, m21: 0, m22: 1 }
}

fn zero3() -> Mat3 {
    Mat3 { m00: 0, m01: 0, m02: 0, m10: 0, m11: 0, m12: 0, m20: 0, m21: 0, m22: 0 }
}

fn unit_square() -> Vec<Point3> {
    vec![p(0, 0, 0), p(2, 0, 0), p(2, 2, 0), p(0, 2, 0)]
}

#[test]
fn vector_from_points_is_difference() {
    let v = vector3_from_points(&p(1, 2, 3), &p(5, 7, 9));
    assert_eq!((v.x, v.y, v.z), (4, 5, 6));
}

#[test]
fn distance_squared_exact() {
    assert_eq!(distance_squared(&p(1, 2, 2), &p(0, 0, 0)), 9);
    assert_eq!(distance_squared(&p(0, 0, 0), &p(0, 0, 0)), 0);
}

#[test]
fn normal_of_xy_plane_points_along_z() {
    let n = plane_normal_vector(&p(0, 0, 0), &p(2, 0, 0), &p(2, 2, 0));
    assert_eq!((n.x, n.y), (0, 0));
    assert_eq!(n.z, 4);
}

#[test]
fn organize_square_swaps_far_corner_to_last() {
    let mut pts = unit_square();
    organize_points(&mut pts);
    assert_eq!(pts[0], p(0, 0, 0));
    assert_eq!(pts[1], p(2, 0, 0));
    assert_eq!(pts[2], p(0, 2, 0));
    assert_eq!(pts[3], p(2, 2, 0));
}

#[test]
fn organize_is_noop_on_ordered_corners() {
    let mut pts = vec![p(0, 0, 0), p(2, 0, 0), p(0, 2, 0), p(2, 2, 0)];
    let before = pts.clone();
    organize_points(&mut pts);
    assert_eq!(pts, before);
}

#[test]
fn unit_square_contains_center_not_outside() {
    let mut pts = unit_square();
    organize_points(&mut pts);
    assert!(quadralateral_contains(&pts, &p(1, 1, 0)));
    assert!(!quadralateral_contains(&pts, &p(3, 1, 0)));
}

#[test]
fn construction_fails_on_zero_matrix() {
    let r = Trapezoid::new(unit_square(), zero3(), Vector3 { x: 0, y: 0, z: 0 });
    assert_eq!(r.err(), Some(ConstructionError::NotInvertible));
}

#[test]
fn construction_succeeds_on_identity() {
    assert!(Trapezoid::new(unit_square(), ident3(), Vector3 { x: 0, y: 0, z: 0 }).is_ok());
}

#[test]
fn transform_round_trip_returns_original() {
    let t = Trapezoid::new(unit_square(), ident3(), Vector3 { x: 10, y: -4, z: 7 }).unwrap();
    let local = p(5, 6, 7);
    let global = t.to_global(local);
    assert_eq!(global, p(15, 2, 14));
    assert_eq!(t.to_local(global), local);
}

#[test]
fn round_trip_with_rotation_transform() {
    let rot = Mat3 { m00: 0, m01: -1, m02: 0, m10: 1, m11: 0, m12: 0, m20: 0, m21: 0, m22: 1 };
    let t = Trapezoid::new(unit_square(), rot, Vector3 { x: 3, y: 4, z: 5 }).unwrap();
    let local = p(8, 9, 10);
    let global = t.to_global(local);
    assert_eq!(t.to_local(global), local);
    let other = p(-2, 11, 0);
    let back = t.to_global(t.to_local(other));
    assert_eq!(back, other);
}

#[test]
fn contains_through_transform() {
    let t = Trapezoid::new(
        vec![p(0, 0, 0), p(2, 0, 0), p(0, 2, 0), p(2, 2, 0)],
        ident3(),
        Vector3 { x: 100, y: 200, z: 0 },
    )
    .unwrap();
    assert_eq!(t.contains_from_local(&p(1, 1, 0)), Ok(true));
    assert_eq!(t.contains_from_global(p(101, 201, 0)), Ok(true));
    assert_eq!(t.contains_from_global(p(0, 0, 0)), Ok(false));
}

#[test]
fn on_plane_detects_plane_membership() {
    let t = Trapezoid::new(
        vec![p(0, 0, 0), p(2, 0, 0), p(0, 2, 0), p(2, 2, 0)],
        ident3(),
        Vector3 { x: 0, y: 0, z: 0 },
    )
    .unwrap();
    let n = t.plane();
    assert_eq!((n.x, n.y), (0, 0));
    assert!(n.z != 0);
    assert_eq!(t.on_plane(&p(1, 1, 0)), Ok(true));
    assert_eq!(t.on_plane(&p(1, 1, 5)), Err(GeometryError::OffPlane));
}
