//! The orbit camera: spherical coordinates around a fixed target.

use vstd::prelude::*;
use crate::angle::{clamp_i128, clamp_spec, wrap_angle, wrap_spec, PI, TWO_PI};
use crate::geometry::Point3;
use crate::projection::ConfigError;

verus! {

/// The polar angle stays this far (in microradians) from either pole.
pub const POLAR_MARGIN: i64 = 1_000;

/// The largest orbit radius, in length steps.
pub const MAX_ORBIT_RADIUS: i64 = 0x4000_0000;

/// An eye at distance `radius` from `target`, at polar angle `polar` from +y and
/// at `azimuth` around it (both in microradians).
#[derive(Clone, Copy, Debug, PartialEq, Eq, Structural)]
pub struct OrbitCamera {
    pub target: Point3,
    pub radius: i64,
    pub polar: i64,
    pub azimuth: i64,
    pub min_radius: i64,
}

pub open spec fn radius_ok(min_radius: int) -> bool {
    0 < min_radius < MAX_ORBIT_RADIUS
}

impl OrbitCamera {
    pub open spec fn wf(&self) -> bool {
        &&& radius_ok(self.min_radius as int)
        &&& self.min_radius < self.radius <= MAX_ORBIT_RADIUS
        &&& POLAR_MARGIN <= self.polar <= PI - POLAR_MARGIN
        &&& 0 <= self.azimuth < TWO_PI
    }

    /// An orbit camera with its coordinates brought into range: the radius
    /// clamped to `[min_radius + 1, MAX_ORBIT_RADIUS]` (strictly above the
    /// minimum), the polar angle to
    /// `[POLAR_MARGIN, PI − POLAR_MARGIN]`, the azimuth wrapped into `[0, TWO_PI)`.
    /// A minimum radius that is not positive, or not below the largest, is
    /// rejected.
    pub fn new(target: Point3, radius: i64, polar: i64, azimuth: i64, min_radius: i64) -> (r: Result<
        OrbitCamera,
        ConfigError,
    >)
        ensures
            !radius_ok(min_radius as int) <==> r == Err::<OrbitCamera, ConfigError>(
                ConfigError::InvalidRadius,
            ),
            radius_ok(min_radius as int) ==> r == Ok::<OrbitCamera, ConfigError>(
                (OrbitCamera {
                    target,
                    radius: clamp_spec(radius as int, min_radius + 1, MAX_ORBIT_RADIUS as int) as i64,
                    polar: clamp_spec(polar as int, POLAR_MARGIN as int, PI - POLAR_MARGIN) as i64,
                    azimuth: wrap_spec(azimuth as int) as i64,
                    min_radius,
                }),
            ),
            r matches Ok(o) ==> o.wf(),
    {
        if min_radius <= 0 || min_radius >= MAX_ORBIT_RADIUS {
            return Err(ConfigError::InvalidRadius);
        }
        Ok(OrbitCamera {
            target,
            radius: clamp_i128(radius as i128, min_radius as i128 + 1, MAX_ORBIT_RADIUS as i128) as i64,
            polar: clamp_i128(polar as i128, POLAR_MARGIN as i128, (PI - POLAR_MARGIN) as i128) as i64,
            azimuth: wrap_angle(azimuth as i128),
            min_radius,
        })
    }
}

} // verus!
