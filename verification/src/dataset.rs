//! The points of a run while they are read.
//!
//! A dataset collects the points one by one and keeps, at every moment, the
//! span of what it holds, so that the extent can be derived without going
//! through the points a second time. Once complete it is turned into the
//! spatial index.

use crate::extent::extend;
use crate::extent::observed;
use crate::extent::Span;
use crate::index::Point;
use crate::index::SpatialIndex;
use vstd::prelude::*;

verus! {

/// The points read so far, with their span.
pub struct Dataset {
    points: Vec<Point>,
    span: Option<Span>,
}

impl Dataset {
    #[verifier::type_invariant]
    spec fn well_formed(self) -> bool {
        self.span == observed(self.points@)
    }

    /// The points in the order in which they were added.
    pub closed spec fn view(&self) -> Seq<Point> {
        self.points@
    }

    /// A dataset without points.
    pub fn new() -> (data: Dataset)
        ensures
            data@ == Seq::<Point>::empty(),
    {
        Dataset { points: Vec::new(), span: None }
    }

    /// Adds a point.
    pub fn push(&mut self, p: Point)
        ensures
            final(self)@ == old(self)@.push(p),
    {
        let mut taken = Dataset::new();
        core::mem::swap(self, &mut taken);
        proof {
            use_type_invariant(&taken);
        }
        let Dataset { points, span } = taken;
        let mut points = points;
        let ghost before = points@;
        points.push(p);
        let span = Some(extend(span, &p));
        assert(points@.drop_last() == before);
        *self = Dataset { points, span };
    }

    /// The number of points.
    pub fn len(&self) -> (n: usize)
        ensures
            n == self@.len(),
    {
        self.points.len()
    }

    /// The span of the points, `None` where there is none.
    pub fn span(&self) -> (r: Option<Span>)
        ensures
            r == observed(self@),
    {
        proof {
            use_type_invariant(self);
        }
        self.span
    }

    /// Builds the spatial index over the points.
    pub fn into_index(self) -> (index: SpatialIndex)
        ensures
            index@ == self@.to_multiset(),
    {
        SpatialIndex::bulk_load(self.points)
    }
}

} // verus!
