//! The output grid and the evaluation of density values over its cells.
//!
//! A [`GridSpec`] fixes the grid's origin, resolution and integer dimensions;
//! cell `(row, col)` is centered at `(xmin + col * xres, ymin + row * yres)`,
//! row 0 at `ymin`. Each cell's density is the sum of quartic kernel weights
//! of every indexed point within the kernel radius of its center, an exact
//! integer numerator over the denominator `16 * WEIGHT_SCALE * WEIGHT_SCALE`.
//! The evaluator narrows the point set with one coarse box query per cell and
//! re-tests every candidate with the exact metric, which by the containment
//! lemma loses no contributing point.

use vstd::prelude::*;
use vstd::multiset::Multiset;
use vstd::arithmetic::div_mod::{lemma_div_pos_is_pos, lemma_fundamental_div_mod};
use vstd::arithmetic::mul::lemma_mul_inequality;

use crate::COORD_LIMIT;
use crate::DIST_LIMIT;
use crate::CENTER_LIMIT;
use crate::EXTENT_LIMIT;
use crate::ConfigError;
use crate::coord::sq_dist;
use crate::coord::planar_dist_sq;
use crate::index::{SpatialIndex, Point, point_key, keys_of, in_box, points_in_box, index_points};
use crate::kernel::{kernel_weight_num, kernel_weight, max_weight_num, lemma_kernel_weight_bounds, DSQ_LIMIT};

verus! {

broadcast use vstd::multiset::group_multiset_axioms;

/// The output grid: origin, resolution and dimensions, all in scaled native
/// coordinate units. Row 0 lies at `ymin`; column 0 at `xmin`.
#[derive(Clone, Copy, PartialEq, Eq, Structural, Debug)]
pub struct GridSpec {
    pub xmin: i64,
    pub ymin: i64,
    pub xres: i64,
    pub yres: i64,
    pub width: u64,
    pub height: u64,
}

/// Rounding of `a / b` to the nearest integer, halves rounded up.
pub open spec fn round_div(a: int, b: int) -> int {
    (2 * a + b) / (2 * b)
}

impl GridSpec {
    /// Well-formedness: positive resolutions, and every cell center within
    /// range of the evaluator's arithmetic.
    pub open spec fn wf(self) -> bool {
        &&& 0 < self.xres as int <= COORD_LIMIT as int
        &&& 0 < self.yres as int <= COORD_LIMIT as int
        &&& -(EXTENT_LIMIT as int) <= self.xmin as int
        &&& -(EXTENT_LIMIT as int) <= self.ymin as int
        &&& self.xmin as int + self.width as int * self.xres as int <= CENTER_LIMIT as int
        &&& self.ymin as int + self.height as int * self.yres as int <= CENTER_LIMIT as int
    }

    /// The x coordinate of the centers of the cells in column `col`.
    pub open spec fn center_x(self, col: int) -> int {
        self.xmin as int + col * self.xres as int
    }

    /// The y coordinate of the centers of the cells in row `row`.
    pub open spec fn center_y(self, row: int) -> int {
        self.ymin as int + row * self.yres as int
    }

    /// Builds the grid over the given bounds: the width is the extent divided
    /// by the resolution, rounded to the nearest integer with halves rounded
    /// up, and likewise the height. A zero or negative resolution is refused.
    pub fn new(xmin: i64, xmax: i64, ymin: i64, ymax: i64, xres: i64, yres: i64) -> (r: Result<
        GridSpec,
        ConfigError,
    >)
        requires
            -(EXTENT_LIMIT as int) <= xmin as int <= xmax as int <= EXTENT_LIMIT as int,
            -(EXTENT_LIMIT as int) <= ymin as int <= ymax as int <= EXTENT_LIMIT as int,
            xres as int <= COORD_LIMIT as int,
            yres as int <= COORD_LIMIT as int,
        ensures
            r is Err <==> (xres <= 0 || yres <= 0),
            r matches Err(e) ==> e == ConfigError::NonPositiveResolution,
            r matches Ok(g) ==> {
                &&& g.wf()
                &&& g.xmin == xmin
                &&& g.ymin == ymin
                &&& g.xres == xres
                &&& g.yres == yres
                &&& g.width as int == round_div(xmax as int - xmin as int, xres as int)
                &&& g.height as int == round_div(ymax as int - ymin as int, yres as int)
            },
    {
        if xres <= 0 || yres <= 0 {
            return Err(ConfigError::NonPositiveResolution);
        }
        let width = rounded_steps(xmax - xmin, xres);
        let height = rounded_steps(ymax - ymin, yres);
        proof {
            lemma_rounded_steps_span(xmax as int - xmin as int, xres as int, width as int);
            lemma_rounded_steps_span(ymax as int - ymin as int, yres as int, height as int);
        }
        Ok(GridSpec { xmin, ymin, xres, yres, width, height })
    }

    /// The center of the cell at `(row, col)`, in scaled native units.
    pub fn cell_center(&self, row: u64, col: u64) -> (c: (i64, i64))
        requires
            self.wf(),
            (row as int) < self.height as int,
            (col as int) < self.width as int,
        ensures
            c.0 as int == self.center_x(col as int),
            c.1 as int == self.center_y(row as int),
            -(CENTER_LIMIT as int) <= c.0 as int <= CENTER_LIMIT as int,
            -(CENTER_LIMIT as int) <= c.1 as int <= CENTER_LIMIT as int,
    {
        proof {
            lemma_mul_inequality(col as int, self.width as int, self.xres as int);
            lemma_mul_inequality(0, col as int, self.xres as int);
            lemma_mul_inequality(row as int, self.height as int, self.yres as int);
            lemma_mul_inequality(0, row as int, self.yres as int);
            assert(0int * self.xres as int == 0 && 0int * self.yres as int == 0)
                by (nonlinear_arith);
            assert(self.width as int <= self.width as int * self.xres as int && self.height as int
                <= self.height as int * self.yres as int) by (nonlinear_arith)
                requires
                    1 <= self.xres as int,
                    1 <= self.yres as int,
                    0 <= self.width as int,
                    0 <= self.height as int,
            ;
        }
        let posx = self.xmin + (col as i64) * self.xres;
        let posy = self.ymin + (row as i64) * self.yres;
        (posx, posy)
    }
}

/// The number of resolution steps that cover an extent: `extent / step`
/// rounded to the nearest integer, halves rounded up.
fn rounded_steps(extent: i64, step: i64) -> (n: u64)
    requires
        0 <= extent as int <= 2 * (EXTENT_LIMIT as int),
        0 < step as int <= COORD_LIMIT as int,
    ensures
        n as int == round_div(extent as int, step as int),
{
    let num = 2 * extent + step;
    let den = 2 * step;
    proof {
        lemma_div_pos_is_pos(num as int, den as int);
        lemma_fundamental_div_mod(num as int, den as int);
        assert(num as int / den as int <= num as int) by (nonlinear_arith)
            requires
                0 <= num as int,
                2 <= den as int,
        ;
    }
    (num / den) as u64
}

/// The last step of a rounded division never overshoots the extent by more
/// than one resolution step: `round_div(extent, step) * step <= extent + step`.
proof fn lemma_rounded_steps_span(extent: int, step: int, n: int)
    requires
        0 <= extent,
        0 < step,
        n == round_div(extent, step),
    ensures
        0 <= n,
        n * step <= extent + step,
{
    lemma_div_pos_is_pos(2 * extent + step, 2 * step);
    lemma_fundamental_div_mod(2 * extent + step, 2 * step);
    assert(n * step <= extent + step) by (nonlinear_arith)
        requires
            0 < step,
            0 <= n,
            2 * extent + step == 2 * step * n + (2 * extent + step) % (2 * step),
            0 <= (2 * extent + step) % (2 * step),
    ;
}

/// The kernel weight a single point contributes to the cell centered at
/// `(cx, cy)` under bandwidth `r`.
pub open spec fn point_weight(p: (int, int), cx: int, cy: int, r: int) -> int {
    kernel_weight_num(sq_dist(p.0, p.1, cx, cy), r)
}

/// The density of the cell centered at `(cx, cy)`: the sum, over every point
/// of the multiset, of its quartic kernel weight, as a numerator over the
/// denominator `16 * WEIGHT_SCALE * WEIGHT_SCALE`. Points beyond the kernel
/// radius contribute zero.
pub open spec fn cell_density(ms: Multiset<(int, int)>, cx: int, cy: int, r: int) -> int
    decreases ms.len(),
{
    if ms.len() == 0 {
        0
    } else {
        let p = ms.choose();
        point_weight(p, cx, cy, r) + cell_density(ms.remove(p), cx, cy, r)
    }
}

/// An empty point set yields density zero for every cell.
pub proof fn lemma_empty_density(ms: Multiset<(int, int)>, cx: int, cy: int, r: int)
    requires
        ms.len() == 0,
    ensures
        cell_density(ms, cx, cy, r) == 0,
{
}

/// The density sum does not depend on which point is taken first: removing
/// any one point removes exactly its own contribution.
pub proof fn lemma_density_remove(ms: Multiset<(int, int)>, p: (int, int), cx: int, cy: int, r: int)
    requires
        ms.contains(p),
    ensures
        cell_density(ms, cx, cy, r) == point_weight(p, cx, cy, r) + cell_density(
            ms.remove(p),
            cx,
            cy,
            r,
        ),
    decreases ms.len(),
{
    let q = ms.choose();
    assert(ms.len() > 0);
    if q == p {
    } else {
        assert(ms.remove(q).contains(p));
        lemma_density_remove(ms.remove(q), p, cx, cy, r);
        assert(ms.remove(q).remove(p) =~= ms.remove(p).remove(q));
        assert(ms.remove(p).contains(q));
        lemma_density_remove(ms.remove(p), q, cx, cy, r);
    }
}

/// Adding a point to the set adds exactly its own contribution to the density.
pub proof fn lemma_density_insert(ms: Multiset<(int, int)>, p: (int, int), cx: int, cy: int, r: int)
    ensures
        cell_density(ms.insert(p), cx, cy, r) == point_weight(p, cx, cy, r) + cell_density(
            ms,
            cx,
            cy,
            r,
        ),
{
    assert(ms.insert(p).contains(p));
    lemma_density_remove(ms.insert(p), p, cx, cy, r);
    assert(ms.insert(p).remove(p) =~= ms);
}

/// A density is never negative and never exceeds one maximal kernel weight
/// per point.
pub proof fn lemma_density_bounds(ms: Multiset<(int, int)>, cx: int, cy: int, r: int)
    requires
        0 < r,
    ensures
        0 <= cell_density(ms, cx, cy, r) <= ms.len() * max_weight_num(),
    decreases ms.len(),
{
    if ms.len() == 0 {
    } else {
        let p = ms.choose();
        lemma_kernel_weight_bounds(sq_dist(p.0, p.1, cx, cy), r);
        lemma_density_bounds(ms.remove(p), cx, cy, r);
        let n = ms.len() as int;
        let k = max_weight_num();
        assert((n - 1) * k + k == n * k) by (nonlinear_arith);
    }
}

/// The coarse box of half-width `r` around a cell center is a faithful
/// candidate filter in planar mode: the points it discards contribute
/// nothing, so the density over the filtered set equals the density over the
/// whole set.
pub proof fn lemma_density_envelope(ms: Multiset<(int, int)>, cx: int, cy: int, r: int)
    requires
        0 < r,
    ensures
        cell_density(points_in_box(ms, cx - r, cy - r, cx + r, cy + r), cx, cy, r) == cell_density(
            ms,
            cx,
            cy,
            r,
        ),
    decreases ms.len(),
{
    let boxed = points_in_box(ms, cx - r, cy - r, cx + r, cy + r);
    if ms.len() == 0 {
        assert(boxed =~= Multiset::<(int, int)>::empty());
    } else {
        let p = ms.choose();
        let rest = ms.remove(p);
        lemma_density_envelope(rest, cx, cy, r);
        let boxed_rest = points_in_box(rest, cx - r, cy - r, cx + r, cy + r);
        if in_box(p, cx - r, cy - r, cx + r, cy + r) {
            assert(boxed.contains(p));
            lemma_density_remove(boxed, p, cx, cy, r);
            assert(boxed.remove(p) =~= boxed_rest);
        } else {
            lemma_outside_box_contributes_nothing(p, cx, cy, r);
            assert(boxed =~= boxed_rest);
        }
    }
}

/// Evaluates one grid cell in planar mode: one coarse box query of half-width
/// `radius` around the center, then the exact squared-distance test and
/// kernel weight for every candidate. The result is the density of the cell
/// over all indexed points, as a numerator over the denominator
/// `16 * WEIGHT_SCALE * WEIGHT_SCALE`.
pub fn eval_cell(t: &SpatialIndex, cx: i64, cy: i64, radius: i64) -> (v: i128)
    requires
        0 < radius as int <= COORD_LIMIT as int,
        -(CENTER_LIMIT as int) <= cx as int <= CENTER_LIMIT as int,
        -(CENTER_LIMIT as int) <= cy as int <= CENTER_LIMIT as int,
    ensures
        v == cell_density(index_points(*t), cx as int, cy as int, radius as int),
        0 <= v,
{
    let cands = t.cell_candidates(cx, cy, radius);
    let ghost boxed = points_in_box(
        index_points(*t),
        cx as int - radius as int,
        cy as int - radius as int,
        cx as int + radius as int,
        cy as int + radius as int,
    );
    proof {
        lemma_density_envelope(index_points(*t), cx as int, cy as int, radius as int);
        lemma_density_bounds(boxed, cx as int, cy as int, radius as int);
        assert(keys_of(cands@.take(0)) =~= Seq::<(int, int)>::empty());
        keys_of(cands@.take(0)).to_multiset_ensures();
        lemma_empty_density(
            keys_of(cands@.take(0)).to_multiset(),
            cx as int,
            cy as int,
            radius as int,
        );
    }
    let mut acc: i128 = 0;
    let mut i: usize = 0;
    while i < cands.len()
        invariant
            i <= cands.len(),
            0 < radius as int <= COORD_LIMIT as int,
            -(CENTER_LIMIT as int) <= cx as int <= CENTER_LIMIT as int,
            -(CENTER_LIMIT as int) <= cy as int <= CENTER_LIMIT as int,
            keys_of(cands@).to_multiset() == boxed,
            boxed == points_in_box(
                index_points(*t),
                cx as int - radius as int,
                cy as int - radius as int,
                cx as int + radius as int,
                cy as int + radius as int,
            ),
            acc == cell_density(
                keys_of(cands@.take(i as int)).to_multiset(),
                cx as int,
                cy as int,
                radius as int,
            ),
            0 <= acc <= (i as int) * 150_000_000_000_000_000,
        decreases cands.len() - i,
    {
        let p = cands[i];
        proof {
            assert(keys_of(cands@)[i as int] == point_key(p));
            assert(keys_of(cands@).contains(point_key(p)));
            keys_of(cands@).to_multiset_ensures();
            assert(boxed.count(point_key(p)) > 0);
            assert(in_box(
                point_key(p),
                cx as int - radius as int,
                cy as int - radius as int,
                cx as int + radius as int,
                cy as int + radius as int,
            ));
        }
        let d_sq = planar_dist_sq(p.x, p.y, cx, cy);
        proof {
            assert(d_sq as int <= DSQ_LIMIT as int) by (nonlinear_arith)
                requires
                    0 < radius as int <= COORD_LIMIT as int,
                    d_sq as int == (p.x as int - cx as int) * (p.x as int - cx as int) + (
                    p.y as int - cy as int) * (p.y as int - cy as int),
                    -(radius as int) <= p.x as int - cx as int <= radius as int,
                    -(radius as int) <= p.y as int - cy as int <= radius as int,
            ;
        }
        let w = kernel_weight(d_sq, radius);
        proof {
            assert(max_weight_num() == 150_000_000_000_000_000);
            let prefix = keys_of(cands@.take(i as int));
            assert(cands@.take(i as int + 1) =~= cands@.take(i as int).push(p));
            assert(keys_of(cands@.take(i as int + 1)) =~= prefix.push(point_key(p)));
            prefix.to_multiset_ensures();
            lemma_density_insert(
                prefix.to_multiset(),
                point_key(p),
                cx as int,
                cy as int,
                radius as int,
            );
        }
        acc = acc + w;
        i = i + 1;
    }
    proof {
        assert(cands@.take(cands@.len() as int) =~= cands@);
    }
    acc
}

/// Evaluates one full grid row in planar mode, column by column in order:
/// entry `c` is the density of the cell at `(row, c)`.
pub fn eval_row(t: &SpatialIndex, g: &GridSpec, row: u64, radius: i64) -> (vals: Vec<i128>)
    requires
        g.wf(),
        (row as int) < g.height as int,
        0 < radius as int <= COORD_LIMIT as int,
    ensures
        vals@.len() == g.width as int,
        forall|c: int|
            0 <= c < g.width as int ==> vals@[c] == cell_density(
                index_points(*t),
                g.center_x(c),
                g.center_y(row as int),
                radius as int,
            ),
{
    let mut vals: Vec<i128> = Vec::new();
    let mut col: u64 = 0;
    while col < g.width
        invariant
            col <= g.width,
            g.wf(),
            (row as int) < g.height as int,
            0 < radius as int <= COORD_LIMIT as int,
            vals@.len() == col as int,
            forall|c: int|
                0 <= c < col as int ==> vals@[c] == cell_density(
                    index_points(*t),
                    g.center_x(c),
                    g.center_y(row as int),
                    radius as int,
                ),
        decreases g.width - col,
    {
        let center = g.cell_center(row, col);
        let v = eval_cell(t, center.0, center.1, radius);
        vals.push(v);
        col = col + 1;
    }
    vals
}

/// The entries of a sequence of distances, as mathematical integers.
pub open spec fn dist_ints(ds: Seq<i64>) -> Seq<int> {
    ds.map_values(|d: i64| d as int)
}

/// The sum of the quartic kernel weights of a sequence of exact distances
/// under bandwidth `r`, as a numerator over the denominator
/// `16 * WEIGHT_SCALE * WEIGHT_SCALE`. Distances beyond `r` contribute zero.
pub open spec fn weights_sum(dists: Seq<int>, r: int) -> int
    decreases dists.len(),
{
    if dists.len() == 0 {
        0
    } else {
        weights_sum(dists.drop_last(), r) + kernel_weight_num(dists.last() * dists.last(), r)
    }
}

/// Sums the quartic kernel weights of a list of exact point-to-center
/// distances. This is the accumulation step of one cell in geographic mode,
/// where the exact metric is the great-circle distance in meters: the caller
/// measures each candidate's distance and hands the distances in, and the
/// result is the cell's density whatever those distances were.
pub fn accumulate_weights(dists: &Vec<i64>, radius: i64) -> (v: i128)
    requires
        0 < radius as int <= COORD_LIMIT as int,
        forall|j: int|
            0 <= j < dists@.len() ==> 0 <= #[trigger] (dists@[j] as int) <= DIST_LIMIT as int,
    ensures
        v == weights_sum(dist_ints(dists@), radius as int),
        0 <= v,
{
    proof {
        assert(dist_ints(dists@.take(0)) =~= Seq::<int>::empty());
    }
    let mut acc: i128 = 0;
    let mut i: usize = 0;
    while i < dists.len()
        invariant
            i <= dists.len(),
            0 < radius as int <= COORD_LIMIT as int,
            forall|j: int|
                0 <= j < dists@.len() ==> 0 <= #[trigger] (dists@[j] as int) <= DIST_LIMIT as int,
            acc == weights_sum(dist_ints(dists@.take(i as int)), radius as int),
            0 <= acc <= (i as int) * 150_000_000_000_000_000,
        decreases dists.len() - i,
    {
        let d = dists[i];
        proof {
            assert(0 <= (d as int) * (d as int) <= DSQ_LIMIT as int) by (nonlinear_arith)
                requires
                    0 <= d as int <= DIST_LIMIT as int,
            ;
        }
        let d_sq: i128 = (d as i128) * (d as i128);
        let w = kernel_weight(d_sq, radius);
        proof {
            assert(max_weight_num() == 150_000_000_000_000_000);
            assert(dists@.take(i as int + 1) =~= dists@.take(i as int).push(d));
            assert(dist_ints(dists@.take(i as int + 1)) =~= dist_ints(dists@.take(i as int)).push(
                d as int,
            ));
            assert(dist_ints(dists@.take(i as int + 1)).drop_last() =~= dist_ints(
                dists@.take(i as int),
            ));
        }
        acc = acc + w;
        i = i + 1;
    }
    proof {
        assert(dists@.take(dists@.len() as int) =~= dists@);
    }
    acc
}

/// A point outside the coarse box of half-width `r` around the cell center is
/// farther than `r` from the center, so its kernel weight is zero.
pub proof fn lemma_outside_box_contributes_nothing(p: (int, int), cx: int, cy: int, r: int)
    requires
        0 < r,
        !in_box(p, cx - r, cy - r, cx + r, cy + r),
    ensures
        point_weight(p, cx, cy, r) == 0,
{
    if 0 <= sq_dist(p.0, p.1, cx, cy) <= r * r {
        crate::coord::lemma_envelope_containment(p.0, p.1, cx, cy, r);
        assert(false);
    }
}

} // verus!
