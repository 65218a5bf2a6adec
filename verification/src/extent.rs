//! The region that is rasterized.
//!
//! Each of the four bounds of the extent is either given explicitly or taken
//! from the smallest and largest coordinates among the points that were read.
//! This module keeps those coordinates while points arrive and decides, bound
//! by bound, where the extent comes from.

use crate::error::ConfigError;
use crate::index::Point;
use vstd::prelude::*;

verus! {

/// The smallest and largest coordinates among a set of points.
#[derive(Clone, Copy, Debug, PartialEq, Eq, Structural)]
pub struct Span {
    pub xmin: i64,
    pub xmax: i64,
    pub ymin: i64,
    pub ymax: i64,
}

/// The smaller of two coordinates.
pub open spec fn min_of(a: i64, b: i64) -> i64 {
    if b < a {
        b
    } else {
        a
    }
}

/// The larger of two coordinates.
pub open spec fn max_of(a: i64, b: i64) -> i64 {
    if b > a {
        b
    } else {
        a
    }
}

/// The span once one more point is taken into account.
pub open spec fn extended(span: Option<Span>, p: Point) -> Span {
    match span {
        None => Span { xmin: p.x, xmax: p.x, ymin: p.y, ymax: p.y },
        Some(s) => Span {
            xmin: min_of(s.xmin, p.x),
            xmax: max_of(s.xmax, p.x),
            ymin: min_of(s.ymin, p.y),
            ymax: max_of(s.ymax, p.y),
        },
    }
}

/// The span of a sequence of points, taken one after the other; `None` where
/// there is no point.
pub open spec fn observed(points: Seq<Point>) -> Option<Span>
    decreases points.len(),
{
    if points.len() == 0 {
        None
    } else {
        Some(extended(observed(points.drop_last()), points.last()))
    }
}

/// Takes one more point into account.
pub fn extend(span: Option<Span>, p: &Point) -> (r: Span)
    ensures
        r == extended(span, *p),
{
    match span {
        None => Span { xmin: p.x, xmax: p.x, ymin: p.y, ymax: p.y },
        Some(s) => Span {
            xmin: if p.x < s.xmin {
                p.x
            } else {
                s.xmin
            },
            xmax: if p.x > s.xmax {
                p.x
            } else {
                s.xmax
            },
            ymin: if p.y < s.ymin {
                p.y
            } else {
                s.ymin
            },
            ymax: if p.y > s.ymax {
                p.y
            } else {
                s.ymax
            },
        },
    }
}

/// The bounds that were given explicitly.
#[derive(Debug, PartialEq)]
pub struct Overrides<T> {
    pub xmin: Option<T>,
    pub xmax: Option<T>,
    pub ymin: Option<T>,
    pub ymax: Option<T>,
}

/// Where one bound of the extent comes from.
#[derive(Debug, PartialEq)]
pub enum Bound<T> {
    /// The bound was given and is used as it is.
    Explicit(T),
    /// The bound is the smallest or largest coordinate among the points. The
    /// caller moves it outwards by the search radius.
    Observed(i64),
}

/// Where the four bounds of the extent come from.
#[derive(Debug, PartialEq)]
pub struct Extent<T> {
    pub xmin: Bound<T>,
    pub xmax: Bound<T>,
    pub ymin: Bound<T>,
    pub ymax: Bound<T>,
}

impl<T> Overrides<T> {
    /// All four bounds are given.
    pub open spec fn is_full(self) -> bool {
        self.xmin is Some && self.xmax is Some && self.ymin is Some && self.ymax is Some
    }
}

/// One bound: the given value where there is one, else the observed one.
pub open spec fn bound_from<T>(given: Option<T>, seen: i64) -> Bound<T> {
    match given {
        Some(v) => Bound::Explicit(v),
        None => Bound::Observed(seen),
    }
}

/// The extent for given overrides and an observed span.
pub open spec fn extent_from<T>(overrides: Overrides<T>, span: Span) -> Extent<T> {
    Extent {
        xmin: bound_from(overrides.xmin, span.xmin),
        xmax: bound_from(overrides.xmax, span.xmax),
        ymin: bound_from(overrides.ymin, span.ymin),
        ymax: bound_from(overrides.ymax, span.ymax),
    }
}

/// The extent for given overrides and what was observed: without any point
/// it exists only where all four bounds are given.
pub open spec fn resolved<T>(overrides: Overrides<T>, span: Option<Span>) -> Result<
    Extent<T>,
    ConfigError,
> {
    match span {
        Some(s) => Ok(extent_from(overrides, s)),
        None => if overrides.is_full() {
            Ok(
                Extent {
                    xmin: Bound::Explicit(overrides.xmin->0),
                    xmax: Bound::Explicit(overrides.xmax->0),
                    ymin: Bound::Explicit(overrides.ymin->0),
                    ymax: Bound::Explicit(overrides.ymax->0),
                },
            )
        } else {
            Err(ConfigError::UndefinedExtent)
        },
    }
}

fn bound<T>(given: Option<T>, seen: i64) -> (r: Bound<T>)
    ensures
        r == bound_from(given, seen),
{
    match given {
        Some(v) => Bound::Explicit(v),
        None => Bound::Observed(seen),
    }
}

/// Decides where each bound of the extent comes from. Fails where no point
/// was read and a bound is missing; with all four bounds given it succeeds
/// without points.
pub fn resolve_extent<T>(overrides: Overrides<T>, span: Option<Span>) -> (r: Result<
    Extent<T>,
    ConfigError,
>)
    ensures
        r == resolved(overrides, span),
        r is Err <==> (span is None && !overrides.is_full()),
{
    match span {
        Some(s) => Ok(
            Extent {
                xmin: bound(overrides.xmin, s.xmin),
                xmax: bound(overrides.xmax, s.xmax),
                ymin: bound(overrides.ymin, s.ymin),
                ymax: bound(overrides.ymax, s.ymax),
            },
        ),
        None => match (overrides.xmin, overrides.xmax, overrides.ymin, overrides.ymax) {
            (Some(a), Some(b), Some(c), Some(d)) => Ok(
                Extent {
                    xmin: Bound::Explicit(a),
                    xmax: Bound::Explicit(b),
                    ymin: Bound::Explicit(c),
                    ymax: Bound::Explicit(d),
                },
            ),
            _ => Err(ConfigError::UndefinedExtent),
        },
    }
}

/// A bound that is given is used as it is, whatever was observed; a bound
/// that is not given is taken from the points.
pub proof fn lemma_given_bound_is_kept<T>(overrides: Overrides<T>, span: Option<Span>)
    requires
        resolved(overrides, span) is Ok,
    ensures
        ({
            let extent = resolved(overrides, span)->Ok_0;
            &&& overrides.xmin matches Some(v) ==> extent.xmin == Bound::Explicit(v)
            &&& overrides.xmax matches Some(v) ==> extent.xmax == Bound::Explicit(v)
            &&& overrides.ymin matches Some(v) ==> extent.ymin == Bound::Explicit(v)
            &&& overrides.ymax matches Some(v) ==> extent.ymax == Bound::Explicit(v)
            &&& overrides.xmin is None ==> extent.xmin == Bound::<T>::Observed(span->0.xmin)
            &&& overrides.xmax is None ==> extent.xmax == Bound::<T>::Observed(span->0.xmax)
            &&& overrides.ymin is None ==> extent.ymin == Bound::<T>::Observed(span->0.ymin)
            &&& overrides.ymax is None ==> extent.ymax == Bound::<T>::Observed(span->0.ymax)
        }),
{
}

/// The span of a sequence of points is the tightest box around them: there
/// is none exactly when there is no point, every point lies within it, and
/// each of its four bounds is the coordinate of some point.
pub proof fn lemma_observed_is_tight(points: Seq<Point>)
    ensures
        observed(points) is None <==> points.len() == 0,
        observed(points) matches Some(s) ==> {
            &&& forall|i: int|
                0 <= i < points.len() ==> s.xmin <= (#[trigger] points[i]).x <= s.xmax
                    && s.ymin <= points[i].y <= s.ymax
            &&& exists|i: int| 0 <= i < points.len() && (#[trigger] points[i]).x == s.xmin
            &&& exists|i: int| 0 <= i < points.len() && (#[trigger] points[i]).x == s.xmax
            &&& exists|i: int| 0 <= i < points.len() && (#[trigger] points[i]).y == s.ymin
            &&& exists|i: int| 0 <= i < points.len() && (#[trigger] points[i]).y == s.ymax
        },
    decreases points.len(),
{
    if points.len() > 0 {
        let front = points.drop_last();
        let last = points.last();
        let n = points.len() - 1;
        lemma_observed_is_tight(front);
        let s = observed(points)->0;
        assert(points[n] == last);
        assert forall|i: int| 0 <= i < points.len() implies s.xmin <= (#[trigger] points[i]).x
            <= s.xmax && s.ymin <= points[i].y <= s.ymax by {
            if i < n {
                assert(front[i] == points[i]);
            }
        }
        match observed(front) {
            None => {},
            Some(f) => {
                let ix0 = choose|i: int| 0 <= i < front.len() && (#[trigger] front[i]).x == f.xmin;
                let ix1 = choose|i: int| 0 <= i < front.len() && (#[trigger] front[i]).x == f.xmax;
                let iy0 = choose|i: int| 0 <= i < front.len() && (#[trigger] front[i]).y == f.ymin;
                let iy1 = choose|i: int| 0 <= i < front.len() && (#[trigger] front[i]).y == f.ymax;
                assert(points[ix0] == front[ix0]);
                assert(points[ix1] == front[ix1]);
                assert(points[iy0] == front[iy0]);
                assert(points[iy1] == front[iy1]);
                assert(points[if s.xmin == f.xmin { ix0 } else { n }].x == s.xmin);
                assert(points[if s.xmax == f.xmax { ix1 } else { n }].x == s.xmax);
                assert(points[if s.ymin == f.ymin { iy0 } else { n }].y == s.ymin);
                assert(points[if s.ymax == f.ymax { iy1 } else { n }].y == s.ymax);
            },
        }
    }
}

/// The span does not depend on the order in which the points arrive.
pub proof fn lemma_observed_ignores_order(a: Seq<Point>, b: Seq<Point>)
    requires
        a.to_multiset() == b.to_multiset(),
    ensures
        observed(a) == observed(b),
{
    a.to_multiset_ensures();
    b.to_multiset_ensures();
    lemma_observed_is_tight(a);
    lemma_observed_is_tight(b);
    if a.len() > 0 {
        let s = observed(a)->0;
        let t = observed(b)->0;
        assert forall|i: int| 0 <= i < a.len() implies b.contains(#[trigger] a[i]) by {
            assert(a.contains(a[i]));
            assert(a.to_multiset().count(a[i]) > 0);
        }
        assert forall|i: int| 0 <= i < b.len() implies a.contains(#[trigger] b[i]) by {
            assert(b.contains(b[i]));
            assert(b.to_multiset().count(b[i]) > 0);
        }
        let ax0 = choose|i: int| 0 <= i < a.len() && (#[trigger] a[i]).x == s.xmin;
        let ax1 = choose|i: int| 0 <= i < a.len() && (#[trigger] a[i]).x == s.xmax;
        let ay0 = choose|i: int| 0 <= i < a.len() && (#[trigger] a[i]).y == s.ymin;
        let ay1 = choose|i: int| 0 <= i < a.len() && (#[trigger] a[i]).y == s.ymax;
        let bx0 = choose|i: int| 0 <= i < b.len() && (#[trigger] b[i]).x == t.xmin;
        let bx1 = choose|i: int| 0 <= i < b.len() && (#[trigger] b[i]).x == t.xmax;
        let by0 = choose|i: int| 0 <= i < b.len() && (#[trigger] b[i]).y == t.ymin;
        let by1 = choose|i: int| 0 <= i < b.len() && (#[trigger] b[i]).y == t.ymax;
        assert(b.contains(a[ax0]) && b.contains(a[ax1]) && b.contains(a[ay0]) && b.contains(a[ay1]));
        assert(a.contains(b[bx0]) && a.contains(b[bx1]) && a.contains(b[by0]) && a.contains(b[by1]));
    }
}

} // verus!
