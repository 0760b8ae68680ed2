//! Resolving the grid's bounding box.
//!
//! Each of the four bounds is taken from the user when given; a bound left
//! open defaults to the matching edge of the data extent, pushed outward by
//! one approximate query radius so that every point's kernel support lies on
//! the grid. Defaulting any bound with no points to measure is an error.

use vstd::prelude::*;

use crate::COORD_LIMIT;
use crate::EXTENT_LIMIT;
use crate::ConfigError;
use crate::index::Point;

verus! {

/// An axis-aligned bounding box in scaled native coordinate units.
#[derive(Clone, Copy, PartialEq, Eq, Structural, Debug)]
pub struct Extent {
    pub xmin: i64,
    pub xmax: i64,
    pub ymin: i64,
    pub ymax: i64,
}

impl Extent {
    /// Whether every field is within `lim` of zero.
    pub open spec fn within(self, lim: int) -> bool {
        &&& -lim <= self.xmin as int <= lim
        &&& -lim <= self.xmax as int <= lim
        &&& -lim <= self.ymin as int <= lim
        &&& -lim <= self.ymax as int <= lim
    }
}

/// The tight bounding box of the observed points: `None` exactly when there
/// are no points; otherwise each bound is attained by some point and bounds
/// every point.
pub fn data_extent(points: &Vec<Point>) -> (r: Option<Extent>)
    ensures
        r is None <==> points@.len() == 0,
        r matches Some(e) ==> forall|i: int|
            0 <= i < points@.len() ==> e.xmin as int <= #[trigger] points@[i].x as int
                <= e.xmax as int,
        r matches Some(e) ==> forall|i: int|
            0 <= i < points@.len() ==> e.ymin as int <= #[trigger] points@[i].y as int
                <= e.ymax as int,
        r matches Some(e) ==> exists|i: int|
            0 <= i < points@.len() && #[trigger] points@[i].x == e.xmin,
        r matches Some(e) ==> exists|i: int|
            0 <= i < points@.len() && #[trigger] points@[i].x == e.xmax,
        r matches Some(e) ==> exists|i: int|
            0 <= i < points@.len() && #[trigger] points@[i].y == e.ymin,
        r matches Some(e) ==> exists|i: int|
            0 <= i < points@.len() && #[trigger] points@[i].y == e.ymax,
{
    if points.len() == 0 {
        return None;
    }
    let first = points[0];
    let mut e = Extent { xmin: first.x, xmax: first.x, ymin: first.y, ymax: first.y };
    let mut i: usize = 1;
    while i < points.len()
        invariant
            1 <= i <= points@.len(),
            forall|k: int|
                0 <= k < i as int ==> e.xmin as int <= #[trigger] points@[k].x as int
                    <= e.xmax as int,
            forall|k: int|
                0 <= k < i as int ==> e.ymin as int <= #[trigger] points@[k].y as int
                    <= e.ymax as int,
            exists|k: int| 0 <= k < i as int && #[trigger] points@[k].x == e.xmin,
            exists|k: int| 0 <= k < i as int && #[trigger] points@[k].x == e.xmax,
            exists|k: int| 0 <= k < i as int && #[trigger] points@[k].y == e.ymin,
            exists|k: int| 0 <= k < i as int && #[trigger] points@[k].y == e.ymax,
        decreases points@.len() - i,
    {
        let p = points[i];
        if p.x < e.xmin {
            e.xmin = p.x;
        }
        if p.x > e.xmax {
            e.xmax = p.x;
        }
        if p.y < e.ymin {
            e.ymin = p.y;
        }
        if p.y > e.ymax {
            e.ymax = p.y;
        }
        i = i + 1;
    }
    Some(e)
}

/// What one resolved lower bound is: the user's value when given, else the
/// data's edge pushed outward by the padding.
pub open spec fn resolved_low(user: Option<i64>, data_edge: int, pad: int) -> int {
    match user {
        Some(v) => v as int,
        None => data_edge - pad,
    }
}

/// What one resolved upper bound is: the user's value when given, else the
/// data's edge pushed outward by the padding.
pub open spec fn resolved_high(user: Option<i64>, data_edge: int, pad: int) -> int {
    match user {
        Some(v) => v as int,
        None => data_edge + pad,
    }
}

/// Resolves the grid bounds from the observed data extent and the optional
/// user overrides, padding each defaulted bound by the approximate radius.
///
/// Succeeds exactly when the data extent exists or all four bounds are
/// overridden; with no points and any bound left open the extent cannot be
/// inferred.
pub fn resolve_extent(
    data: Option<Extent>,
    user_xmin: Option<i64>,
    user_xmax: Option<i64>,
    user_ymin: Option<i64>,
    user_ymax: Option<i64>,
    approx_radius: i64,
) -> (r: Result<Extent, ConfigError>)
    requires
        0 <= approx_radius as int <= COORD_LIMIT as int,
        data matches Some(d) ==> d.within(COORD_LIMIT as int),
        user_xmin matches Some(v) ==> -(COORD_LIMIT as int) <= v as int <= COORD_LIMIT as int,
        user_xmax matches Some(v) ==> -(COORD_LIMIT as int) <= v as int <= COORD_LIMIT as int,
        user_ymin matches Some(v) ==> -(COORD_LIMIT as int) <= v as int <= COORD_LIMIT as int,
        user_ymax matches Some(v) ==> -(COORD_LIMIT as int) <= v as int <= COORD_LIMIT as int,
    ensures
        r is Ok <==> (data is Some || (user_xmin is Some && user_xmax is Some && user_ymin is Some
            && user_ymax is Some)),
        r matches Err(e) ==> e == ConfigError::EmptyExtent,
        r matches Ok(e) ==> e.within(EXTENT_LIMIT as int),
        (match (r, data) {
            (Ok(e), Some(d)) => {
                &&& e.xmin as int == resolved_low(user_xmin, d.xmin as int, approx_radius as int)
                &&& e.xmax as int == resolved_high(user_xmax, d.xmax as int, approx_radius as int)
                &&& e.ymin as int == resolved_low(user_ymin, d.ymin as int, approx_radius as int)
                &&& e.ymax as int == resolved_high(user_ymax, d.ymax as int, approx_radius as int)
            },
            (Ok(e), None) => {
                &&& Some(e.xmin) == user_xmin
                &&& Some(e.xmax) == user_xmax
                &&& Some(e.ymin) == user_ymin
                &&& Some(e.ymax) == user_ymax
            },
            (Err(_), _) => true,
        }),
{
    match data {
        Some(d) => {
            let xmin = match user_xmin {
                Some(v) => v,
                None => d.xmin - approx_radius,
            };
            let xmax = match user_xmax {
                Some(v) => v,
                None => d.xmax + approx_radius,
            };
            let ymin = match user_ymin {
                Some(v) => v,
                None => d.ymin - approx_radius,
            };
            let ymax = match user_ymax {
                Some(v) => v,
                None => d.ymax + approx_radius,
            };
            Ok(Extent { xmin, xmax, ymin, ymax })
        },
        None => {
            match (user_xmin, user_xmax, user_ymin, user_ymax) {
                (Some(xmin), Some(xmax), Some(ymin), Some(ymax)) => Ok(
                    Extent { xmin, xmax, ymin, ymax },
                ),
                _ => Err(ConfigError::EmptyExtent),
            }
        },
    }
}

} // verus!
