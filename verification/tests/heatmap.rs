use sheatmap::ConfigError;
use sheatmap::coord::{to_srs_coord, planar_dist_sq, KernelParams};
use sheatmap::extent::{data_extent, resolve_extent, Extent};
use sheatmap::grid::{GridSpec, eval_cell, eval_row, accumulate_weights};
use sheatmap::index::{Point, SpatialIndex};
use sheatmap::kernel::{kernel_weight, WEIGHT_SCALE};

/// One native unit in scaled fixed-point coordinates.
const SCALE: i64 = 1_000_000;

/// The weight of a point at distance zero: 15/16 of the fixed denominator.
const MAX_WEIGHT: i128 = 150_000_000_000_000_000;

/// The fixed denominator of density numerators.
fn denominator() -> f64 {
    16.0 * (WEIGHT_SCALE as f64) * (WEIGHT_SCALE as f64)
}

fn sorted_xs(points: &[Point]) -> Vec<i64> {
    let mut xs: Vec<i64> = points.iter().map(|p| p.x).collect();
    xs.sort();
    xs
}

/// The same great-circle formula the application uses, for expected values.
fn haversine_dist_meters(th1: f64, ph1: f64, th2: f64, ph2: f64) -> f64 {
    let earth_radius_m = 6_371_000.0_f64;
    let dphi = (ph1 - ph2).to_radians();
    let th1 = th1.to_radians();
    let th2 = th2.to_radians();
    let dz = th1.sin() - th2.sin();
    let dx = dphi.cos() * th1.cos() - th2.cos();
    let dy = dphi.sin() * th1.cos();
    ((dx * dx + dy * dy + dz * dz).sqrt() / 2.0).asin() * 2.0 * earth_radius_m
}

#[test]
fn kernel_boundary_is_exact() {
    // weight(d = 0) is exactly 15/16; weight(d = radius) is exactly 0.
    let r: i64 = 10 * SCALE;
    let w0 = kernel_weight(0, r);
    assert_eq!(w0, MAX_WEIGHT);
    assert_eq!((w0 as f64) / denominator(), 15.0 / 16.0);
    let r_sq = (r as i128) * (r as i128);
    assert_eq!(kernel_weight(r_sq, r), 0);
}

#[test]
fn kernel_is_non_increasing() {
    let r: i64 = 1_000;
    let mut last = kernel_weight(0, r);
    for d in 0..=1_000i128 {
        let w = kernel_weight(d * d, r);
        assert!(w <= last, "kernel grew at distance {}", d);
        last = w;
    }
    assert_eq!(last, 0);
}

#[test]
fn kernel_matches_float_formula() {
    let r: i64 = 200_000;
    let d: i64 = 111_195;
    let w = kernel_weight((d as i128) * (d as i128), r);
    let ratio = (d as f64) / (r as f64);
    let expected = (15.0 / 16.0) * (1.0 - ratio * ratio) * (1.0 - ratio * ratio);
    assert!(((w as f64) / denominator() - expected).abs() < 1e-6);
}

#[test]
fn planar_conversion_is_identity() {
    assert_eq!(to_srs_coord(false, 0), 0);
    assert_eq!(to_srs_coord(false, 123_456_789), 123_456_789);
    assert_eq!(to_srs_coord(false, -987_654), -987_654);
}

#[test]
fn geographic_conversion_divides_by_meters_per_degree() {
    // 200 km at micro-unit scale becomes about 1.818 degrees.
    assert_eq!(to_srs_coord(true, 200_000 * SCALE), 1_818_181);
    assert_eq!(to_srs_coord(true, 110_000), 1);
    assert_eq!(to_srs_coord(true, 0), 0);
}

#[test]
fn planar_distance_is_symmetric() {
    let cases = [(0i64, 0i64, 3i64, 4i64), (-7, 2, 5, -9), (1_000_000, -1_000_000, 0, 0)];
    for (x1, y1, x2, y2) in cases {
        assert_eq!(planar_dist_sq(x1, y1, x2, y2), planar_dist_sq(x2, y2, x1, y1));
    }
    assert_eq!(planar_dist_sq(0, 0, 3, 4), 25);
}

#[test]
fn grid_sizing_rounds_half_up() {
    // Width: 10 / 2 = 5 exactly. Height: 9 / 2 = 4.5, and this library
    // rounds halves up, so 5.
    let g = GridSpec::new(0, 10, 0, 9, 2, 2).unwrap();
    assert_eq!(g.width, 5);
    assert_eq!(g.height, 5);
    let g2 = GridSpec::new(0, 9, 0, 7, 2, 2).unwrap();
    assert_eq!(g2.width, 5); // 4.5 rounds up
    assert_eq!(g2.height, 4); // 3.5 rounds up to 4
}

#[test]
fn grid_refuses_non_positive_resolution() {
    let r = GridSpec::new(0, 10, 0, 10, 0, 2);
    assert_eq!(r.unwrap_err(), ConfigError::NonPositiveResolution);
    let r = GridSpec::new(0, 10, 0, 10, 2, -1);
    assert_eq!(r.unwrap_err(), ConfigError::NonPositiveResolution);
    assert_eq!(
        ConfigError::NonPositiveResolution.message(),
        "resolution must be positive"
    );
}

#[test]
fn kernel_params_require_positive_radius() {
    let r = KernelParams::new(0, false);
    assert_eq!(r.unwrap_err(), ConfigError::NonPositiveRadius);
    let k = KernelParams::new(10 * SCALE, false).unwrap();
    assert_eq!(k.radius_native, 10 * SCALE);
    let k = KernelParams::new(200_000 * SCALE, true).unwrap();
    assert_eq!(k.radius_native, 1_818_181);
}

#[test]
fn empty_input_yields_zero_density_everywhere() {
    let idx = SpatialIndex::build(&vec![]);
    assert_eq!(idx.len(), 0);
    for (cx, cy) in [(0i64, 0i64), (5, -5), (1_000_000, 1_000_000)] {
        assert_eq!(eval_cell(&idx, cx, cy, 10 * SCALE), 0);
    }
}

#[test]
fn empty_input_without_bounds_is_a_config_error() {
    let r = resolve_extent(None, None, None, None, None, 10);
    assert_eq!(r.unwrap_err(), ConfigError::EmptyExtent);
    assert_eq!(
        ConfigError::EmptyExtent.message(),
        "cannot infer extent from zero points"
    );
    // With all four bounds overridden, no points are needed.
    let e = resolve_extent(None, Some(-1), Some(1), Some(-2), Some(2), 10).unwrap();
    assert_eq!(e, Extent { xmin: -1, xmax: 1, ymin: -2, ymax: 2 });
}

#[test]
fn data_extent_is_tight() {
    let points = vec![
        Point { x: 3, y: -1 },
        Point { x: -5, y: 7 },
        Point { x: 0, y: 0 },
    ];
    let e = data_extent(&points).unwrap();
    assert_eq!(e, Extent { xmin: -5, xmax: 3, ymin: -1, ymax: 7 });
    assert!(data_extent(&vec![]).is_none());
}

#[test]
fn resolve_extent_pads_defaulted_bounds() {
    let d = Extent { xmin: 0, xmax: 10, ymin: -4, ymax: 4 };
    let e = resolve_extent(Some(d), None, Some(99), None, None, 3).unwrap();
    assert_eq!(e, Extent { xmin: -3, xmax: 99, ymin: -7, ymax: 7 });
}

#[test]
fn envelope_query_bounds_are_inclusive() {
    let points = vec![
        Point { x: 0, y: 0 },
        Point { x: 5, y: 0 },
        Point { x: 6, y: 0 },
        Point { x: 0, y: -5 },
        Point { x: 0, y: -6 },
    ];
    let idx = SpatialIndex::build(&points);
    assert_eq!(idx.len(), 5);
    let cands = idx.cell_candidates(0, 0, 5);
    // Points exactly on the boundary are included; beyond it, excluded.
    assert_eq!(cands.len(), 3);
    assert_eq!(sorted_xs(&cands), vec![0, 0, 5]);
}

#[test]
fn two_point_planar_scenario() {
    // Points (0,0) and (1,0), radius 1, resolution 1, planar mode; the grid
    // spans the data extent expanded by the radius. The cell centered on the
    // origin collects 15/16 from the point at distance 0 and exactly 0 from
    // the point at distance 1.
    let points = vec![Point { x: 0, y: 0 }, Point { x: SCALE, y: 0 }];
    let idx = SpatialIndex::build(&points);
    let radius = SCALE;
    let d = data_extent(&points).unwrap();
    let e = resolve_extent(Some(d), None, None, None, None, radius).unwrap();
    assert_eq!(e, Extent { xmin: -SCALE, xmax: 2 * SCALE, ymin: -SCALE, ymax: SCALE });
    let g = GridSpec::new(e.xmin, e.xmax, e.ymin, e.ymax, SCALE, SCALE).unwrap();
    assert_eq!(g.width, 3);
    assert_eq!(g.height, 2);
    // Row 1 is centered at y = 0; its column 1 is centered at x = 0.
    let row = eval_row(&idx, &g, 1, radius);
    assert_eq!(row.len(), 3);
    assert_eq!(row[1], MAX_WEIGHT);
    assert_eq!((row[1] as f64) / denominator(), 0.9375);
    // The cell centered at (-1, 0) sees only the origin point, at exactly the
    // kernel boundary, so its density is zero.
    assert_eq!(row[0], 0);
}

#[test]
fn geographic_scenario_at_the_equator() {
    // Two points one degree of longitude apart at the equator, radius
    // 200 km: the great-circle distance is about 111,195 m, both points fall
    // in the query window, and the weight follows the kernel formula.
    let points = vec![Point { x: 0, y: 0 }, Point { x: SCALE, y: 0 }];
    let idx = SpatialIndex::build(&points);
    let radius_m: i64 = 200_000;
    let k = KernelParams::new(radius_m * SCALE, true).unwrap();
    assert_eq!(k.radius_native, 1_818_181);
    let cands = idx.cell_candidates(0, 0, k.radius_native);
    assert_eq!(cands.len(), 2);
    let d = haversine_dist_meters(0.0, 1.0, 0.0, 0.0);
    assert!((d - 111_195.0).abs() < 1.0);
    let dists: Vec<i64> = cands
        .iter()
        .map(|p| {
            haversine_dist_meters((p.y as f64) / 1e6, (p.x as f64) / 1e6, 0.0, 0.0).round() as i64
        })
        .collect();
    let v = accumulate_weights(&dists, radius_m);
    let ratio = d / (radius_m as f64);
    let expected = 15.0 / 16.0 + (15.0 / 16.0) * (1.0 - ratio * ratio) * (1.0 - ratio * ratio);
    assert!(((v as f64) / denominator() - expected).abs() < 1e-6);
}

#[test]
fn accumulate_weights_edge_cases() {
    let r: i64 = 1_000;
    assert_eq!(accumulate_weights(&vec![], r), 0);
    // A distance exactly at the radius and one beyond it weigh nothing.
    assert_eq!(accumulate_weights(&vec![r, r + 1], r), 0);
    assert_eq!(accumulate_weights(&vec![0], r), MAX_WEIGHT);
    assert_eq!(
        accumulate_weights(&vec![0, r, 0], r),
        2 * MAX_WEIGHT
    );
}

#[test]
fn duplicate_points_both_contribute() {
    let points = vec![Point { x: 0, y: 0 }, Point { x: 0, y: 0 }];
    let idx = SpatialIndex::build(&points);
    assert_eq!(idx.len(), 2);
    assert_eq!(eval_cell(&idx, 0, 0, 100), 2 * MAX_WEIGHT);
}
