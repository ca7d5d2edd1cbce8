//! Camera positioning, input-driven camera control, view-frustum extraction and
//! instance culling, all in exact fixed-point integer arithmetic.
//!
//! Units used throughout:
//! - angles are in microradians (`angle::UNITS_PER_RADIAN`);
//! - lengths and positions are in steps of 1/`geometry::LENGTH_UNIT` world unit;
//! - direction components are scaled by `geometry::DIRECTION_UNIT`;
//! - ratios (aspect, tangent of half the field of view) are exact fractions.

pub mod angle;
pub mod geometry;
pub mod projection;
pub mod camera;
pub mod instance;
pub mod frustum;
pub mod controller;
pub mod orbit;
