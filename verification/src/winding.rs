use vstd::prelude::*;

use crate::pline_vertex::PlineVertex;
use crate::pline_vertex::spec_bulge_is_pos;
use crate::pline_vertex::spec_bulge_is_zero;
use crate::pline_vertex::spec_pos;
use crate::polyline::Polyline;
use crate::scalar::Real;
use crate::seg_math::spec_is_left;
use crate::seg_math::spec_is_left_or_equal;
use crate::seg_math::spec_seg_arc_radius_and_center;
use crate::traversal::spec_seg_count;
use crate::traversal::spec_seg_vertex_pairs;
use crate::vector2::Vector2;
use crate::vector2::spec_dist_squared;

verus! {

// The winding number classifier: a signed count of horizontal ray crossings,
// accumulated per segment in traversal order. An upward crossing counts plus
// one and a downward crossing minus one; arcs add a case split over the
// chord crossing direction, the arc orientation, the side of the chord the
// point falls on, and containment in the arc's circle.

/// Whether `point` lies strictly inside the circle of the arc from `v1` to
/// `v2`.
pub open spec fn spec_dist_to_arc_center_less_than_radius<T: Real>(
    v1: PlineVertex<T>,
    v2: PlineVertex<T>,
    point: Vector2<T>,
) -> bool {
    let rc = spec_seg_arc_radius_and_center(v1, v2);
    spec_dist_squared(rc.1, point).spec_lt(rc.0.spec_mul(rc.0))
}

/// Winding contribution of the line segment from `v1` to `v2` for a
/// horizontal ray to the right of `point`: plus one for an upward crossing
/// with the point strictly left of the segment, minus one for a downward
/// crossing with the point on or right of it, zero otherwise.
pub open spec fn spec_line_winding<T: Real>(
    v1: PlineVertex<T>,
    v2: PlineVertex<T>,
    point: Vector2<T>,
) -> int {
    if v1.y.spec_lte(point.y) {
        if point.y.spec_lt(v2.y) && spec_is_left(spec_pos(v1), spec_pos(v2), point) {
            1
        } else {
            0
        }
    } else {
        if v2.y.spec_lte(point.y) && !spec_is_left(spec_pos(v1), spec_pos(v2), point) {
            -1
        } else {
            0
        }
    }
}

/// Winding contribution of the arc segment from `v1` to `v2` for a
/// horizontal ray to the right of `point`: the chord crossing rule of the
/// line case, refined by the arc's orientation, by which side of the chord
/// the point falls on, and by containment in the arc's circle; when the
/// chord is not crossed at all the point can still sit in the circular
/// segment between chord and arc, tested through the chord's x span and the
/// circle.
pub open spec fn spec_arc_winding<T: Real>(
    v1: PlineVertex<T>,
    v2: PlineVertex<T>,
    point: Vector2<T>,
) -> int {
    let is_ccw = spec_bulge_is_pos(v1);
    let point_is_left = if is_ccw {
        spec_is_left(spec_pos(v1), spec_pos(v2), point)
    } else {
        spec_is_left_or_equal(spec_pos(v1), spec_pos(v2), point)
    };
    let inside_circle = spec_dist_to_arc_center_less_than_radius(v1, v2, point);
    if v1.y.spec_lte(point.y) {
        if point.y.spec_lt(v2.y) {
            // upward crossing of the arc chord
            if is_ccw {
                if point_is_left {
                    1
                } else if inside_circle {
                    1
                } else {
                    0
                }
            } else {
                if point_is_left && !inside_circle {
                    1
                } else {
                    0
                }
            }
        } else {
            // chord not crossed and below: the point may sit in the sector
            if is_ccw && !point_is_left {
                if v2.x.spec_lt(point.x) && point.x.spec_lt(v1.x) && inside_circle {
                    1
                } else {
                    0
                }
            } else if !is_ccw && point_is_left {
                if v1.x.spec_lt(point.x) && point.x.spec_lt(v2.x) && inside_circle {
                    -1
                } else {
                    0
                }
            } else {
                0
            }
        }
    } else if v2.y.spec_lte(point.y) {
        // downward crossing of the arc chord
        if is_ccw {
            if !point_is_left && inside_circle {
                -1
            } else {
                0
            }
        } else {
            if point_is_left {
                if inside_circle {
                    -1
                } else {
                    0
                }
            } else {
                -1
            }
        }
    } else {
        // chord not crossed and above: the point may sit in the sector
        if is_ccw && !point_is_left {
            if v1.x.spec_lt(point.x) && point.x.spec_lt(v2.x) && inside_circle {
                1
            } else {
                0
            }
        } else {
            if v2.x.spec_lt(point.x) && point.x.spec_lt(v1.x) && inside_circle {
                -1
            } else {
                0
            }
        }
    }
}

/// Winding contribution of one segment: the line rule for a zero bulge, the
/// arc rule otherwise.
pub open spec fn spec_seg_winding<T: Real>(
    v1: PlineVertex<T>,
    v2: PlineVertex<T>,
    point: Vector2<T>,
) -> int {
    if spec_bulge_is_zero(v1) {
        spec_line_winding(v1, v2, point)
    } else {
        spec_arc_winding(v1, v2, point)
    }
}

/// Signed crossing count of the segments `pairs` around `point`, summed in
/// order.
pub open spec fn spec_fold_winding<T: Real>(
    pairs: Seq<(PlineVertex<T>, PlineVertex<T>)>,
    point: Vector2<T>,
) -> int
    decreases pairs.len(),
{
    if pairs.len() == 0 {
        0
    } else {
        spec_fold_winding(pairs.drop_last(), point) + spec_seg_winding(
            pairs.last().0,
            pairs.last().1,
            point,
        )
    }
}

/// Winding number of a polyline around `point`: zero for an open polyline
/// or one with fewer than two vertexes, else the signed count of times the
/// path winds around the point. Undefined in value (but always some
/// integer) when the point lies exactly on a segment.
pub open spec fn spec_winding_number<T: Real>(
    s: Seq<PlineVertex<T>>,
    is_closed: bool,
    point: Vector2<T>,
) -> int {
    if !is_closed || s.len() < 2 {
        0
    } else {
        spec_fold_winding(spec_seg_vertex_pairs(s, is_closed), point)
    }
}

/// Every single segment contributes minus one, zero or plus one.
pub proof fn lemma_seg_winding_bounds<T: Real>(
    v1: PlineVertex<T>,
    v2: PlineVertex<T>,
    point: Vector2<T>,
)
    ensures
        -1 <= spec_seg_winding(v1, v2, point) <= 1,
{
}

impl<T: Real> Polyline<T> {
    /// Winding contribution of the line segment from `v1` to `v2`.
    fn process_line_winding(v1: PlineVertex<T>, v2: PlineVertex<T>, point: Vector2<T>) -> (r: i32)
        ensures
            r as int == spec_line_winding(v1, v2, point),
    {
        let mut result: i32 = 0;
        if v1.y.lte(point.y) {
            if point.y.lt(v2.y) && crate::seg_math::is_left(v1.pos(), v2.pos(), point) {
                result = 1;
            }
        } else {
            if v2.y.lte(point.y) && !crate::seg_math::is_left(v1.pos(), v2.pos(), point) {
                result = -1;
            }
        }
        result
    }

    /// Winding contribution of the arc segment from `v1` to `v2`.
    fn process_arc_winding(v1: PlineVertex<T>, v2: PlineVertex<T>, point: Vector2<T>) -> (r: i32)
        ensures
            r as int == spec_arc_winding(v1, v2, point),
    {
        let is_ccw = v1.bulge_is_pos();
        let point_is_left = if is_ccw {
            crate::seg_math::is_left(v1.pos(), v2.pos(), point)
        } else {
            crate::seg_math::is_left_or_equal(v1.pos(), v2.pos(), point)
        };
        let rc = crate::seg_math::seg_arc_radius_and_center(v1, v2);
        let dist2 = crate::vector2::dist_squared(rc.1, point);
        let inside_circle = dist2.lt(rc.0.mul(rc.0));
        let mut result: i32 = 0;
        if v1.y.lte(point.y) {
            if point.y.lt(v2.y) {
                // upward crossing of the arc chord
                if is_ccw {
                    if point_is_left {
                        result = 1;
                    } else {
                        if inside_circle {
                            result = 1;
                        }
                    }
                } else {
                    if point_is_left && !inside_circle {
                        result = 1;
                    }
                }
            } else {
                // chord not crossed and below: sector test
                if is_ccw && !point_is_left {
                    if v2.x.lt(point.x) && point.x.lt(v1.x) && inside_circle {
                        result = 1;
                    }
                } else if !is_ccw && point_is_left {
                    if v1.x.lt(point.x) && point.x.lt(v2.x) && inside_circle {
                        result = -1;
                    }
                }
            }
        } else if v2.y.lte(point.y) {
            // downward crossing of the arc chord
            if is_ccw {
                if !point_is_left && inside_circle {
                    result = -1;
                }
            } else {
                if point_is_left {
                    if inside_circle {
                        result = -1;
                    }
                } else {
                    result = -1;
                }
            }
        } else {
            // chord not crossed and above: sector test
            if is_ccw && !point_is_left {
                if v1.x.lt(point.x) && point.x.lt(v2.x) && inside_circle {
                    result = 1;
                }
            } else {
                if v2.x.lt(point.x) && point.x.lt(v1.x) && inside_circle {
                    result = -1;
                }
            }
        }
        result
    }

    /// Calculate the winding number of the polyline around `point`: the
    /// signed number of turns the path makes around it, summed segment by
    /// segment. Always zero for an open polyline or fewer than two
    /// vertexes; for a simple closed path it is minus one, zero or one; a
    /// self intersecting path adds its independent loops. The value is
    /// undefined when the point lies exactly on a segment.
    pub fn winding_number(&self, point: Vector2<T>) -> (r: i32)
        requires
            self@.len() <= i32::MAX,
        ensures
            r as int == spec_winding_number(self@, self.spec_is_closed(), point),
    {
        if !self.is_closed() || self.len() < 2 {
            return 0;
        }
        let ghost pairs = spec_seg_vertex_pairs(self@, self.spec_is_closed());
        let count = self.seg_count();
        let mut winding: i32 = 0;
        let mut k: usize = 0;
        while k < count
            invariant
                k <= count,
                count == spec_seg_count(self@.len() as int, self.spec_is_closed()),
                count <= i32::MAX,
                pairs == spec_seg_vertex_pairs(self@, self.spec_is_closed()),
                winding as int == spec_fold_winding(pairs.take(k as int), point),
                -(k as int) <= winding as int <= k as int,
            decreases count - k,
        {
            let (i, j) = self.seg_pair_at(k);
            let v1 = self.at(i);
            let v2 = self.at(j);
            let contribution = if v1.bulge_is_zero() {
                Self::process_line_winding(v1, v2, point)
            } else {
                Self::process_arc_winding(v1, v2, point)
            };
            proof {
                assert(pairs.take(k + 1).drop_last() =~= pairs.take(k as int));
                assert(pairs.take(k + 1).last() == pairs[k as int]);
                lemma_seg_winding_bounds(v1, v2, point);
            }
            winding = winding + contribution;
            k = k + 1;
        }
        proof {
            assert(pairs.take(count as int) =~= pairs);
        }
        winding
    }
}

} // verus!
