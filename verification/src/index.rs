//! Spatial index over weighted lattice points, backed by an R-tree.
//!
//! Coordinates are signed 64-bit lattice positions. The index is built once
//! from the complete point set and afterwards only answers box queries.

use rstar::primitives::GeomWithData;
use rstar::{RTree, AABB};
use vstd::multiset::Multiset;
use vstd::prelude::*;

verus! {

/// A point on the integer lattice together with an opaque 64-bit payload.
#[derive(Clone, Copy, Debug, PartialEq, Eq, Structural)]
pub struct Point {
    pub x: i64,
    pub y: i64,
    pub value: u64,
}

/// The axis-aligned box spanned by two opposite corners, given in any order.
/// Its border belongs to it.
#[derive(Clone, Copy, Debug, PartialEq, Eq, Structural)]
pub struct BoundingBox {
    pub x1: i64,
    pub y1: i64,
    pub x2: i64,
    pub y2: i64,
}

/// `v` lies between `a` and `b`, whichever of the two is the smaller.
pub open spec fn between(a: int, v: int, b: int) -> bool {
    (a <= v <= b) || (b <= v <= a)
}

impl BoundingBox {
    /// The point lies in the box or on its border.
    pub open spec fn contains(self, p: Point) -> bool {
        between(self.x1 as int, p.x as int, self.x2 as int)
            && between(self.y1 as int, p.y as int, self.y2 as int)
    }

    /// Every lattice position of `self` is one of `outer`.
    pub open spec fn inside(self, outer: BoundingBox) -> bool {
        between(outer.x1 as int, self.x1 as int, outer.x2 as int)
            && between(outer.x1 as int, self.x2 as int, outer.x2 as int)
            && between(outer.y1 as int, self.y1 as int, outer.y2 as int)
            && between(outer.y1 as int, self.y2 as int, outer.y2 as int)
    }

    /// Decides `contains`.
    pub fn holds(&self, p: &Point) -> (r: bool)
        ensures
            r == self.contains(*p),
    {
        let in_x = (self.x1 <= p.x && p.x <= self.x2) || (self.x2 <= p.x && p.x <= self.x1);
        let in_y = (self.y1 <= p.y && p.y <= self.y2) || (self.y2 <= p.y && p.y <= self.y1);
        in_x && in_y
    }
}

/// A bulk-loaded R-tree of lattice points.
///
/// The tree is an `rstar::RTree`. The verifier does not look inside it: what
/// it holds is known only as `indexed_points`, by what is assumed of the two
/// calls below.
#[verifier::external_body]
pub struct SpatialIndex {
    tree: RTree<GeomWithData<[i64; 2], u64>>,
}

/// The points that an index holds, each as often as it was loaded.
pub uninterp spec fn indexed_points(index: SpatialIndex) -> Multiset<Point>;

/// `rstar::RTree::bulk_load` on `rstar::primitives::GeomWithData` items: the
/// tree holds exactly the elements it was given, each as often as it was given.
#[verifier::external_body]
fn rtree_bulk_load(points: Vec<Point>) -> (index: SpatialIndex)
    ensures
        indexed_points(index) == points@.to_multiset(),
{
    let items = points.into_iter().map(|p| GeomWithData::new([p.x, p.y], p.value)).collect();
    SpatialIndex { tree: RTree::bulk_load(items) }
}

/// `rstar::RTree::locate_in_envelope` with the envelope that
/// `rstar::AABB::from_corners` makes of the two corners: the iterator yields
/// each element of the tree whose position lies in the envelope, border
/// included, once for each time it is held, and nothing else. The order in
/// which they come is left open.
#[verifier::external_body]
fn rtree_locate_in_envelope(index: &SpatialIndex, window: BoundingBox) -> (hits: Vec<Point>)
    ensures
        hits@.to_multiset() == indexed_points(*index).filter(|p: Point| window.contains(p)),
{
    let envelope = AABB::from_corners([window.x1, window.y1], [window.x2, window.y2]);
    index.tree.locate_in_envelope(envelope).map(
        |g| Point { x: g.geom()[0], y: g.geom()[1], value: g.data },
    ).collect()
}

impl SpatialIndex {
    /// The indexed points as a multiset.
    pub open spec fn view(&self) -> Multiset<Point> {
        indexed_points(*self)
    }

    /// Builds the index over the complete point set.
    pub fn bulk_load(points: Vec<Point>) -> (index: SpatialIndex)
        ensures
            index@ == points@.to_multiset(),
    {
        rtree_bulk_load(points)
    }

    /// All indexed points that lie in `window`, each exactly as often as it
    /// was loaded.
    pub fn locate_in_envelope(&self, window: BoundingBox) -> (hits: Vec<Point>)
        ensures
            hits@.to_multiset() == self@.filter(|p: Point| window.contains(p)),
            forall|p: Point| #[trigger]
                hits@.to_multiset().count(p) == (if window.contains(p) {
                    self@.count(p)
                } else {
                    0
                }),
            forall|i: int| 0 <= i < hits@.len() ==> window.contains(#[trigger] hits@[i]),
    {
        let hits = rtree_locate_in_envelope(self, window);
        proof {
            broadcast use vstd::multiset::group_multiset_axioms;
            hits@.to_multiset_ensures();
            assert forall|i: int| 0 <= i < hits@.len() implies window.contains(
                #[trigger] hits@[i],
            ) by {
                assert(hits@.contains(hits@[i]));
                assert(hits@.to_multiset().count(hits@[i]) > 0);
            }
        }
        hits
    }
}

/// What a query reports is fixed by the points and the box alone: any two
/// answers hold the same points, each equally often, however the index is
/// laid out inside.
pub proof fn lemma_answers_agree(
    points: Multiset<Point>,
    window: BoundingBox,
    first: Seq<Point>,
    second: Seq<Point>,
)
    requires
        first.to_multiset() == points.filter(|p: Point| window.contains(p)),
        second.to_multiset() == points.filter(|p: Point| window.contains(p)),
    ensures
        first.to_multiset() == second.to_multiset(),
        first.len() == second.len(),
        forall|p: Point| first.contains(p) <==> second.contains(p),
{
    first.to_multiset_ensures();
    second.to_multiset_ensures();
    assert forall|p: Point| first.contains(p) <==> second.contains(p) by {
        assert(first.contains(p) <==> first.to_multiset().count(p) > 0);
        assert(second.contains(p) <==> second.to_multiset().count(p) > 0);
    }
}

/// A query box that lies inside another reports no point that the other
/// misses: widening the box never loses a hit.
pub proof fn lemma_wider_box_keeps_hits(
    points: Multiset<Point>,
    inner: BoundingBox,
    outer: BoundingBox,
)
    requires
        inner.inside(outer),
    ensures
        points.filter(|p: Point| inner.contains(p)).subset_of(
            points.filter(|p: Point| outer.contains(p)),
        ),
{
    broadcast use vstd::multiset::group_multiset_axioms;
    let narrow = points.filter(|p: Point| inner.contains(p));
    let wide = points.filter(|p: Point| outer.contains(p));
    assert forall|p: Point| narrow.count(p) <= wide.count(p) by {
        if inner.contains(p) {
            assert(outer.contains(p));
        }
    }
}

} // verus!
