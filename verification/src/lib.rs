//! Kernel density heatmaps over scattered 2D points.
//!
//! A set of points is bulk-loaded into a spatial index once; a regular grid is
//! then swept cell by cell, each cell collecting a quartic-kernel-weighted
//! density from the points within a query radius of its center.
//!
//! All coordinates, radii and resolutions are fixed-point integers: a caller
//! picks a scale (such as micro-units per native unit) and hands every value
//! in multiplied by that scale. Density values are likewise fixed-point
//! numerators over the constant denominator `16 * WEIGHT_SCALE * WEIGHT_SCALE`.

use vstd::prelude::*;

pub mod coord;
pub mod extent;
pub mod grid;
pub mod index;
pub mod kernel;

verus! {

/// Largest magnitude accepted for a raw input coordinate, radius or
/// resolution, in scaled units.
pub const COORD_LIMIT: i64 = 1_000_000_000_000;

/// Largest magnitude a resolved grid bound can reach: a raw coordinate
/// widened by at most one radius.
pub const EXTENT_LIMIT: i64 = 2_000_000_000_000;

/// Largest magnitude a cell center can reach: a grid bound advanced by at
/// most one full grid span plus one resolution step.
pub const CENTER_LIMIT: i64 = 3_000_000_000_000;

/// Largest distance value the kernel accumulator accepts.
pub const DIST_LIMIT: i64 = 10_000_000_000_000;

/// A configuration the run cannot proceed on.
#[derive(Clone, Copy, PartialEq, Eq, Structural, Debug)]
pub enum ConfigError {
    /// No explicit bounds were given and there are no points to infer them from.
    EmptyExtent,
    /// A grid resolution is zero or negative.
    NonPositiveResolution,
    /// The kernel radius is zero or negative.
    NonPositiveRadius,
}

impl ConfigError {
    /// A human-readable description of the error.
    pub fn message(&self) -> (s: &'static str)
        ensures
            *self == ConfigError::EmptyExtent ==> s@ == "cannot infer extent from zero points"@,
            *self == ConfigError::NonPositiveResolution ==> s@ == "resolution must be positive"@,
            *self == ConfigError::NonPositiveRadius ==> s@ == "radius must be positive"@,
    {
        match self {
            ConfigError::EmptyExtent => "cannot infer extent from zero points",
            ConfigError::NonPositiveResolution => "resolution must be positive",
            ConfigError::NonPositiveRadius => "radius must be positive",
        }
    }
}

} // verus!
