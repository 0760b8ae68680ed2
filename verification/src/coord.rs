//! Coordinate handling: unit conversion and the planar distance metric.
//!
//! In planar mode the native coordinate units already match real-world units,
//! so conversion is the identity and distances are Euclidean. In geographic
//! mode coordinates are latitude/longitude degrees: a real-world length is
//! converted to an approximate degree offset by dividing by a fixed
//! meters-per-degree constant. That approximation only sizes query windows;
//! the exact great-circle test happens on real distances handed back to the
//! kernel accumulator.

use vstd::prelude::*;

use crate::COORD_LIMIT;
use crate::ConfigError;

verus! {

/// Approximate meters per degree of latitude, used to size query windows in
/// geographic mode.
pub const METERS_PER_DEGREE: i64 = 110_000;

/// What a real-world length becomes in native coordinate units: itself in
/// planar mode, an approximate degree offset in geographic mode.
pub open spec fn native_units(assume_lat_lon: bool, val: int) -> int {
    if assume_lat_lon {
        val / (METERS_PER_DEGREE as int)
    } else {
        val
    }
}

/// Converts a real-world length to native coordinate units.
///
/// In planar mode this is the identity for every input. In geographic mode
/// the value is divided by `METERS_PER_DEGREE`, rounding down.
pub fn to_srs_coord(assume_lat_lon: bool, val: i64) -> (r: i64)
    requires
        assume_lat_lon ==> 0 <= val,
    ensures
        r == native_units(assume_lat_lon, val as int),
{
    if assume_lat_lon {
        val / METERS_PER_DEGREE
    } else {
        val
    }
}

/// The kernel parameters of one run: the radius in real-world units, its
/// native-unit approximation for sizing query windows, and the coordinate
/// mode.
#[derive(Clone, Copy, PartialEq, Eq, Structural, Debug)]
pub struct KernelParams {
    /// The kernel radius, in real-world units (meters in geographic mode).
    pub radius: i64,
    /// The radius converted to native coordinate units; equal to `radius` in
    /// planar mode, an approximate degree offset in geographic mode.
    pub radius_native: i64,
    /// Whether coordinates are latitude/longitude degrees.
    pub geographic: bool,
}

impl KernelParams {
    /// Well-formedness: a positive bounded radius whose native-unit form is
    /// its conversion.
    pub open spec fn wf(self) -> bool {
        &&& 0 < self.radius as int <= COORD_LIMIT as int
        &&& self.radius_native as int == native_units(self.geographic, self.radius as int)
        &&& 0 <= self.radius_native as int <= COORD_LIMIT as int
    }

    /// Validates the kernel radius and fixes the native-unit query half-width.
    /// A zero or negative radius is refused.
    pub fn new(radius: i64, geographic: bool) -> (r: Result<KernelParams, ConfigError>)
        requires
            radius as int <= COORD_LIMIT as int,
        ensures
            r is Ok <==> radius > 0,
            r matches Err(e) ==> e == ConfigError::NonPositiveRadius,
            r matches Ok(k) ==> k.wf() && k.radius == radius && k.geographic == geographic,
    {
        if radius <= 0 {
            Err(ConfigError::NonPositiveRadius)
        } else {
            let radius_native = to_srs_coord(geographic, radius);
            Ok(KernelParams { radius, radius_native, geographic })
        }
    }
}

/// The squared Euclidean distance between two planar points.
pub open spec fn sq_dist(x1: int, y1: int, x2: int, y2: int) -> int {
    (x1 - x2) * (x1 - x2) + (y1 - y2) * (y1 - y2)
}

/// Computes the squared Euclidean distance between two planar points.
pub fn planar_dist_sq(x1: i64, y1: i64, x2: i64, y2: i64) -> (d_sq: i128)
    requires
        -10 * (COORD_LIMIT as int) <= x1 <= 10 * (COORD_LIMIT as int),
        -10 * (COORD_LIMIT as int) <= y1 <= 10 * (COORD_LIMIT as int),
        -10 * (COORD_LIMIT as int) <= x2 <= 10 * (COORD_LIMIT as int),
        -10 * (COORD_LIMIT as int) <= y2 <= 10 * (COORD_LIMIT as int),
    ensures
        d_sq == sq_dist(x1 as int, y1 as int, x2 as int, y2 as int),
        0 <= d_sq,
{
    let dx: i128 = (x1 as i128) - (x2 as i128);
    let dy: i128 = (y1 as i128) - (y2 as i128);
    proof {
        let lim = 20 * (COORD_LIMIT as int);
        assert(0 <= (dx as int) * (dx as int) <= lim * lim && 0 <= (dy as int) * (dy as int)
            <= lim * lim) by (nonlinear_arith)
            requires
                -lim <= dx as int <= lim,
                -lim <= dy as int <= lim,
        ;
    }
    dx * dx + dy * dy
}

/// The planar metric is symmetric: the squared distance from one point to
/// another equals the squared distance back.
pub proof fn lemma_planar_symmetry(x1: int, y1: int, x2: int, y2: int)
    ensures
        sq_dist(x1, y1, x2, y2) == sq_dist(x2, y2, x1, y1),
{
    assert((x1 - x2) * (x1 - x2) == (x2 - x1) * (x2 - x1) && (y1 - y2) * (y1 - y2) == (y2 - y1)
        * (y2 - y1)) by (nonlinear_arith);
}

/// Containment of the coarse query window: in planar mode, every point within
/// the kernel radius of a cell center lies inside the axis-aligned box of
/// half-width `radius` around that center, so the box never misses a
/// contributing point.
pub proof fn lemma_envelope_containment(px: int, py: int, cx: int, cy: int, radius: int)
    requires
        0 <= radius,
        sq_dist(px, py, cx, cy) <= radius * radius,
    ensures
        cx - radius <= px <= cx + radius,
        cy - radius <= py <= cy + radius,
{
    assert(cx - radius <= px <= cx + radius && cy - radius <= py <= cy + radius)
        by (nonlinear_arith)
        requires
            0 <= radius,
            (px - cx) * (px - cx) + (py - cy) * (py - cy) <= radius * radius,
    ;
}

} // verus!
