//! Verified core of a Kalman-filter update cycle over an exact integer
//! scalar, together with the planar-sensor geometry (frame transforms and
//! quadrilateral containment) that gates which measurements enter the filter.

use vstd::prelude::*;

mod filter;
mod geom;
mod inverse;
mod laws;
mod mat5;
mod trapezoid;

pub use geom::COORD_LIMIT;
pub use geom::GEOM_LIMIT;
pub use geom::Plane;
pub use geom::Point3;
pub use geom::Transform;
pub use geom::Vector3;
pub use geom::distance_squared;
pub use geom::organize_points;
pub use geom::plane_normal_vector;
pub use geom::quadralateral_contains;
pub use geom::vector3_from_points;
pub use filter::ENTRY_LIMIT;
pub use filter::GAIN_LIMIT;
pub use filter::calculate_kalman_gain;
pub use filter::chi_squared_increment;
pub use filter::filter_residuals;
pub use filter::innovation;
pub use filter::residual_covariance_matrix;
pub use filter::update_chi_squared;
pub use filter::update_covariance;
pub use filter::update_state_vector;
pub use inverse::invertible5;
pub use inverse::is_inverse5;
pub use inverse::try_inverse5;
pub use laws::lemma_accumulate_associative;
pub use laws::lemma_accumulate_commutative;
pub use laws::lemma_organize_fixed_point;
pub use laws::lemma_zero_mapping_innovation;
pub use mat5::Mat5;
pub use mat5::mat_entries_bounded;
pub use mat5::mat_identity;
pub use mat5::mat_zero;
pub use trapezoid::GLOBAL_LIMIT;
pub use trapezoid::apply3;
pub use trapezoid::det3;
pub use trapezoid::is_inverse3;
pub use trapezoid::lemma_inverse3_applies;
pub use trapezoid::lemma_to_global_inverts_to_local;
pub use trapezoid::lemma_to_local_inverts_to_global;
pub use trapezoid::mat3_in_range;
pub use trapezoid::Mat3;
pub use trapezoid::TFM_LIMIT;
pub use trapezoid::Trapezoid;
pub use trapezoid::try_inverse3;
pub use mat5::Vec5;

verus! {

/// Failure of a numerical operation: a required matrix inverse does not
/// exist over the exact integer scalar, or an intermediate value left the
/// machine-representable range.
#[derive(Clone, Copy, Debug, PartialEq, Eq, Structural)]
pub enum NumericalError {
    /// The matrix that had to be inverted has no exact inverse.
    Singular,
    /// An intermediate product left the representable range.
    OutOfRange,
}

/// Failure of a geometric query.
#[derive(Clone, Copy, Debug, PartialEq, Eq, Structural)]
pub enum GeometryError {
    /// The queried point does not lie on the sensor plane.
    OffPlane,
}

/// Failure of a sensor-shape construction.
#[derive(Clone, Copy, Debug, PartialEq, Eq, Structural)]
pub enum ConstructionError {
    /// The supplied transform matrix has no exact inverse.
    NotInvertible,
}

} // verus!
