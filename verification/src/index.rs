//! The spatial index: an immutable 2D point index bulk-built once from the
//! full point set, supporting axis-aligned range queries.
//!
//! The index is an R-tree from the `rstar` crate. Verus cannot see inside it,
//! so the structure is held opaquely and its contents are named by the
//! uninterpreted function [`index_points`], a multiset of coordinate pairs.
//! The trusted wrappers below state, over that name, what `rstar`'s source
//! shows of bulk loading, size and envelope queries; everything downstream is
//! verified against those contracts.

use vstd::prelude::*;
use vstd::multiset::Multiset;

use crate::CENTER_LIMIT;
use crate::COORD_LIMIT;

verus! {

/// One input point, in scaled native coordinate units.
#[derive(Clone, Copy, PartialEq, Eq, Structural, Debug)]
pub struct Point {
    pub x: i64,
    pub y: i64,
}

/// The coordinate pair of a point, as mathematical integers.
pub open spec fn point_key(p: Point) -> (int, int) {
    (p.x as int, p.y as int)
}

/// Whether a coordinate pair lies inside an inclusive axis-aligned box.
pub open spec fn in_box(q: (int, int), min_x: int, min_y: int, max_x: int, max_y: int) -> bool {
    min_x <= q.0 <= max_x && min_y <= q.1 <= max_y
}

/// The coordinate pairs of a sequence of points, in order.
pub open spec fn keys_of(ps: Seq<Point>) -> Seq<(int, int)> {
    ps.map_values(|p: Point| point_key(p))
}

/// The sub-multiset of `ms` inside an inclusive axis-aligned box.
pub open spec fn points_in_box(
    ms: Multiset<(int, int)>,
    min_x: int,
    min_y: int,
    max_x: int,
    max_y: int,
) -> Multiset<(int, int)> {
    ms.filter(|q: (int, int)| in_box(q, min_x, min_y, max_x, max_y))
}

/// An immutable 2D point index over the full input point set.
///
/// The field is an `rstar::RTree`; Verus treats the whole struct as opaque
/// and reasons about it only through [`index_points`] and the contracts of
/// the methods below.
#[verifier::external_body]
pub struct SpatialIndex {
    tree: rstar::RTree<[i64; 2]>,
}

/// The multiset of coordinate pairs held by a spatial index.
pub uninterp spec fn index_points(t: SpatialIndex) -> Multiset<(int, int)>;

impl SpatialIndex {
    /// Relies on rstar::RTree::bulk_load: the tree holds exactly the given
    /// elements, duplicates included.
    #[verifier::external_body]
    fn bulk_load(points: &Vec<Point>) -> (t: SpatialIndex)
        ensures
            index_points(t) == keys_of(points@).to_multiset(),
    {
        let elements: Vec<[i64; 2]> = points.iter().map(|p| [p.x, p.y]).collect();
        SpatialIndex { tree: rstar::RTree::bulk_load(elements) }
    }

    /// Relies on rstar::RTree::size: the number of stored elements, which
    /// bulk loading sets to the number of loaded elements.
    #[verifier::external_body]
    fn size(&self) -> (n: usize)
        ensures
            n == index_points(*self).len(),
    {
        self.tree.size()
    }

    /// Relies on rstar::RTree::locate_in_envelope and rstar::AABB::from_corners:
    /// the query yields exactly the stored elements whose coordinates lie
    /// within the box, bounds inclusive, in unspecified order.
    #[verifier::external_body]
    fn query_box(&self, min_x: i64, min_y: i64, max_x: i64, max_y: i64) -> (r: Vec<Point>)
        requires
            min_x <= max_x,
            min_y <= max_y,
        ensures
            keys_of(r@).to_multiset() == points_in_box(
                index_points(*self),
                min_x as int,
                min_y as int,
                max_x as int,
                max_y as int,
            ),
    {
        let envelope = rstar::AABB::from_corners([min_x, min_y], [max_x, max_y]);
        self.tree.locate_in_envelope(envelope).map(|p| Point { x: p[0], y: p[1] }).collect()
    }

    /// Bulk-builds an index over the full point set; an empty set yields an
    /// empty index.
    pub fn build(points: &Vec<Point>) -> (t: SpatialIndex)
        ensures
            index_points(t) == keys_of(points@).to_multiset(),
            index_points(t).len() == points@.len(),
    {
        let t = SpatialIndex::bulk_load(points);
        proof {
            keys_of(points@).to_multiset_ensures();
        }
        t
    }

    /// The number of indexed points.
    pub fn len(&self) -> (n: usize)
        ensures
            n == index_points(*self).len(),
    {
        self.size()
    }

    /// Every indexed point within the inclusive box of half-width `half` around
    /// a center, in unspecified order: the coarse candidate filter for one
    /// grid cell.
    pub fn cell_candidates(&self, cx: i64, cy: i64, half: i64) -> (r: Vec<Point>)
        requires
            0 <= half <= COORD_LIMIT as int,
            -(CENTER_LIMIT as int) <= cx as int <= CENTER_LIMIT as int,
            -(CENTER_LIMIT as int) <= cy as int <= CENTER_LIMIT as int,
        ensures
            keys_of(r@).to_multiset() == points_in_box(
                index_points(*self),
                cx as int - half as int,
                cy as int - half as int,
                cx as int + half as int,
                cy as int + half as int,
            ),
    {
        self.query_box(cx - half, cy - half, cx + half, cy + half)
    }
}

} // verus!
