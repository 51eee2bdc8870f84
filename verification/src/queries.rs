use vstd::prelude::*;

use crate::aabb::AABB;
use crate::pline_vertex::PlineVertex;
use crate::pline_vertex::spec_bulge_is_zero;
use crate::pline_vertex::spec_pos;
use crate::polyline::Polyline;
use crate::scalar::Real;
use crate::scalar::spec_max_real;
use crate::scalar::spec_min_real;
use crate::seg_math::spec_angle_from_bulge;
use crate::seg_math::spec_arc_seg_bounding_box;
use crate::seg_math::spec_seg_closest_point;
use crate::seg_math::spec_seg_length;
use crate::traversal::PlineSegIndexIterator;
use crate::traversal::PlineSegIterator;
use crate::traversal::spec_seg_count;
use crate::traversal::spec_seg_index_pairs;
use crate::traversal::spec_seg_vertex_pairs;
use crate::vector2::Vector2;
use crate::vector2::spec_length;
use crate::vector2::spec_length_squared;
use crate::vector2::spec_vec_sub;

verus! {

/// Result of a closest point query: the start index of the winning segment,
/// the closest point on it, and the distance to it.
#[derive(Debug, Copy, Clone)]
pub struct ClosestPointResult<T> {
    /// The start vertex index of the closest segment.
    pub seg_start_index: usize,
    /// The closest point on the closest segment.
    pub seg_point: Vector2<T>,
    /// The distance between the points.
    pub distance: T,
}

/// Total length of the segments `pairs`, summed in order: Euclidean length
/// for lines, radius times included angle for arcs.
pub open spec fn spec_fold_lengths<T: Real>(pairs: Seq<(PlineVertex<T>, PlineVertex<T>)>) -> T
    decreases pairs.len(),
{
    if pairs.len() == 0 {
        T::spec_zero()
    } else {
        spec_fold_lengths(pairs.drop_last()).spec_add(
            spec_seg_length(pairs.last().0, pairs.last().1),
        )
    }
}

/// Total path length of a polyline: the sum of its segment lengths.
pub open spec fn spec_path_length<T: Real>(s: Seq<PlineVertex<T>>, is_closed: bool) -> T {
    spec_fold_lengths(spec_seg_vertex_pairs(s, is_closed))
}

/// Twice the signed area contributed by the circular segment of the arc from
/// `v1` to `v2` beyond its chord: the doubled sector area minus the doubled
/// triangle area, negated for a clockwise arc.
pub open spec fn spec_arc_area_term<T: Real>(v1: PlineVertex<T>, v2: PlineVertex<T>) -> T {
    let b = v1.bulge.spec_abs();
    let sweep_angle = spec_angle_from_bulge(b);
    let triangle_base = spec_length(spec_vec_sub(spec_pos(v2), spec_pos(v1)));
    let radius = triangle_base.spec_mul(b.spec_mul(b).spec_add(T::spec_one())).spec_div(
        T::spec_four().spec_mul(b),
    );
    let sagitta = b.spec_mul(triangle_base).spec_div(T::spec_two());
    let triangle_height = radius.spec_sub(sagitta);
    let double_sector_area = sweep_angle.spec_mul(radius).spec_mul(radius);
    let double_triangle_area = triangle_base.spec_mul(triangle_height);
    let double_arc_area = double_sector_area.spec_sub(double_triangle_area);
    if v1.bulge.spec_lt(T::spec_zero()) {
        double_arc_area.spec_neg()
    } else {
        double_arc_area
    }
}

/// Twice the signed area enclosed by the segments `pairs`, accumulated in
/// order: the shoelace term of each chord, plus the circular segment term of
/// each arc.
pub open spec fn spec_fold_area<T: Real>(pairs: Seq<(PlineVertex<T>, PlineVertex<T>)>) -> T
    decreases pairs.len(),
{
    if pairs.len() == 0 {
        T::spec_zero()
    } else {
        let v1 = pairs.last().0;
        let v2 = pairs.last().1;
        let acc = spec_fold_area(pairs.drop_last()).spec_add(v1.x.spec_mul(v2.y)).spec_sub(
            v1.y.spec_mul(v2.x),
        );
        if !spec_bulge_is_zero(v1) {
            acc.spec_add(spec_arc_area_term(v1, v2))
        } else {
            acc
        }
    }
}

/// Signed area of a polyline: zero when open, else half the doubled shoelace
/// and arc total; positive for counter clockwise winding.
pub open spec fn spec_area<T: Real>(s: Seq<PlineVertex<T>>, is_closed: bool) -> T {
    if !is_closed {
        T::spec_zero()
    } else {
        spec_fold_area(spec_seg_vertex_pairs(s, is_closed)).spec_div(T::spec_two())
    }
}

/// A bounding box widened by one segment: a line segment can only push the
/// box out to its end vertex; an arc segment contributes its tight arc
/// bounding box.
pub open spec fn spec_extend_extents<T: Real>(
    bx: AABB<T>,
    v1: PlineVertex<T>,
    v2: PlineVertex<T>,
) -> AABB<T> {
    if spec_bulge_is_zero(v1) {
        let min_x = if v2.x.spec_lt(bx.min_x) {
            v2.x
        } else {
            bx.min_x
        };
        let max_x = if !v2.x.spec_lt(bx.min_x) && bx.max_x.spec_lt(v2.x) {
            v2.x
        } else {
            bx.max_x
        };
        let min_y = if v2.y.spec_lt(bx.min_y) {
            v2.y
        } else {
            bx.min_y
        };
        let max_y = if !v2.y.spec_lt(bx.min_y) && bx.max_y.spec_lt(v2.y) {
            v2.y
        } else {
            bx.max_y
        };
        AABB { min_x, min_y, max_x, max_y }
    } else {
        let arc = spec_arc_seg_bounding_box(v1, v2);
        AABB {
            min_x: spec_min_real(bx.min_x, arc.min_x),
            min_y: spec_min_real(bx.min_y, arc.min_y),
            max_x: spec_max_real(bx.max_x, arc.max_x),
            max_y: spec_max_real(bx.max_y, arc.max_y),
        }
    }
}

/// The bounding box `bx` widened by every segment of `pairs`, in order.
pub open spec fn spec_fold_extents<T: Real>(
    bx: AABB<T>,
    pairs: Seq<(PlineVertex<T>, PlineVertex<T>)>,
) -> AABB<T>
    decreases pairs.len(),
{
    if pairs.len() == 0 {
        bx
    } else {
        spec_extend_extents(spec_fold_extents(bx, pairs.drop_last()), pairs.last().0, pairs.last().1)
    }
}

/// Extents of a polyline: nothing when empty; else the degenerate box of the
/// first vertex widened by every segment.
pub open spec fn spec_extents<T: Real>(s: Seq<PlineVertex<T>>, is_closed: bool) -> Option<
    AABB<T>,
> {
    if s.len() == 0 {
        Option::None
    } else {
        let seed = AABB { min_x: s[0].x, min_y: s[0].y, max_x: s[0].x, max_y: s[0].y };
        Option::Some(spec_fold_extents(seed, spec_seg_vertex_pairs(s, is_closed)))
    }
}

/// Where a segment visit stopped: the visits on the first `m` segments all
/// answered true, and either `m` is all of them or the visit on segment `m`
/// answered false.
pub open spec fn spec_visit_stopped_at<T: Real, F: Fn(PlineVertex<T>, PlineVertex<T>) -> bool>(
    pairs: Seq<(PlineVertex<T>, PlineVertex<T>)>,
    visitor: F,
    m: int,
) -> bool {
    0 <= m <= pairs.len() && (forall|i: int|
        0 <= i < m ==> call_ensures(visitor, ((#[trigger] pairs[i]).0, pairs[i].1), true)) && (m
        < pairs.len() ==> call_ensures(visitor, (pairs[m].0, pairs[m].1), false))
}

/// Running winner of the closest point scan after the first `k` segments of
/// `pairs`: segment start index, closest point, and squared distance. The
/// scan starts from the first vertex with an unbounded distance and keeps
/// the first strict improvement, so the earliest minimal segment wins.
pub open spec fn spec_fold_closest<T: Real>(
    s: Seq<PlineVertex<T>>,
    pairs: Seq<(int, int)>,
    point: Vector2<T>,
    k: int,
) -> (int, Vector2<T>, T)
    decreases k,
{
    if k <= 0 {
        (0int, spec_pos(s[0]), T::spec_max_value())
    } else {
        let prev = spec_fold_closest(s, pairs, point, k - 1);
        let p = pairs[k - 1];
        let v1 = s[p.0];
        let v2 = s[p.1];
        let cp = spec_seg_closest_point(v1, v2, point);
        let d2 = spec_length_squared(spec_vec_sub(point, cp));
        if d2.spec_lt(prev.2) {
            (p.0, cp, d2)
        } else {
            prev
        }
    }
}

/// Closest point of a polyline to `point`: nothing when empty; the single
/// vertex itself for a one vertex polyline; else the winner of the segment
/// scan with its distance taken out of the square.
pub open spec fn spec_closest_point<T: Real>(
    s: Seq<PlineVertex<T>>,
    is_closed: bool,
    point: Vector2<T>,
) -> Option<ClosestPointResult<T>> {
    if s.len() == 0 {
        Option::None
    } else if s.len() == 1 {
        Option::Some(
            ClosestPointResult {
                seg_start_index: 0usize,
                seg_point: spec_pos(s[0]),
                distance: spec_length(spec_vec_sub(spec_pos(s[0]), point)),
            },
        )
    } else {
        let pairs = spec_seg_index_pairs(s.len() as int, is_closed);
        let best = spec_fold_closest(s, pairs, point, pairs.len() as int);
        Option::Some(
            ClosestPointResult {
                seg_start_index: best.0 as usize,
                seg_point: best.1,
                distance: best.2.spec_sqrt(),
            },
        )
    }
}

impl<T: Real> Polyline<T> {
    /// The segment index pair at position `k` of the traversal order: the
    /// wraparound pair first when closed, then the forward pairs.
    pub(crate) fn seg_pair_at(&self, k: usize) -> (r: (usize, usize))
        requires
            k < spec_seg_count(self@.len() as int, self.spec_is_closed()),
        ensures
            (r.0 as int, r.1 as int) == spec_seg_index_pairs(
                self@.len() as int,
                self.spec_is_closed(),
            )[k as int],
            r.0 < self@.len(),
            r.1 < self@.len(),
    {
        let n = self.len();
        if self.is_closed() {
            if k == 0 {
                (n - 1, 0)
            } else {
                (k - 1, k)
            }
        } else {
            (k, k + 1)
        }
    }

    /// The number of segments of the polyline.
    pub(crate) fn seg_count(&self) -> (r: usize)
        ensures
            r == spec_seg_count(self@.len() as int, self.spec_is_closed()),
    {
        let n = self.len();
        if n < 2 {
            0
        } else if self.is_closed() {
            n
        } else {
            n - 1
        }
    }

    /// Iterate through all the polyline segments (represented as polyline
    /// vertex pairs).
    pub fn iter_segments(&self) -> (r: PlineSegIterator<'_, T>)
        ensures
            r.remaining_pairs() == spec_seg_vertex_pairs(self@, self.spec_is_closed()),
    {
        PlineSegIterator::new(self)
    }

    /// Iterate through all the polyline segment vertex positional indexes.
    pub fn iter_segment_indexes(&self) -> (r: PlineSegIndexIterator)
        ensures
            r.remaining_pairs() == spec_seg_index_pairs(
                self@.len() as int,
                self.spec_is_closed(),
            ),
    {
        PlineSegIndexIterator::new(self.len(), self.is_closed())
    }

    /// Visit the polyline segments in traversal order with a visiting
    /// function, stopping early as soon as it returns false: some prefix of
    /// the segments is visited with the visitor answering true, and either
    /// that prefix is all of them or the visit right after it answered
    /// false.
    pub fn visit_segments<F: Fn(PlineVertex<T>, PlineVertex<T>) -> bool>(&self, visitor: &F)
        requires
            forall|v1: PlineVertex<T>, v2: PlineVertex<T>| call_requires(*visitor, (v1, v2)),
        ensures
            exists|m: int|
                spec_visit_stopped_at(
                    spec_seg_vertex_pairs(self@, self.spec_is_closed()),
                    *visitor,
                    m,
                ),
    {
        let ghost pairs = spec_seg_vertex_pairs(self@, self.spec_is_closed());
        let count = self.seg_count();
        proof {
            crate::traversal::lemma_seg_index_pairs_in_range(
                self@.len() as int,
                self.spec_is_closed(),
            );
            assert(pairs.len() == count);
        }
        let mut k: usize = 0;
        while k < count
            invariant
                k <= count,
                count == spec_seg_count(self@.len() as int, self.spec_is_closed()),
                count == pairs.len(),
                pairs == spec_seg_vertex_pairs(self@, self.spec_is_closed()),
                forall|v1: PlineVertex<T>, v2: PlineVertex<T>| call_requires(*visitor, (v1, v2)),
                forall|i: int|
                    0 <= i < k ==> call_ensures(*visitor, ((#[trigger] pairs[i]).0, pairs[i].1), true),
            decreases count - k,
        {
            let (i, j) = self.seg_pair_at(k);
            let v1 = self.at(i);
            let v2 = self.at(j);
            proof {
                assert(pairs[k as int] == (v1, v2));
            }
            let keep_going = visitor(v1, v2);
            if !keep_going {
                proof {
                    assert(spec_visit_stopped_at(pairs, *visitor, k as int));
                }
                return ;
            }
            k = k + 1;
        }
        proof {
            assert(spec_visit_stopped_at(pairs, *visitor, count as int));
        }
    }

    /// Total path length of the polyline: the sum over all segments of line
    /// length for line segments and arc length for arc segments.
    pub fn path_length(&self) -> (r: T)
        ensures
            r == spec_path_length(self@, self.spec_is_closed()),
    {
        let ghost pairs = spec_seg_vertex_pairs(self@, self.spec_is_closed());
        let count = self.seg_count();
        let mut acc = T::zero();
        let mut k: usize = 0;
        while k < count
            invariant
                k <= count,
                count == spec_seg_count(self@.len() as int, self.spec_is_closed()),
                pairs == spec_seg_vertex_pairs(self@, self.spec_is_closed()),
                acc == spec_fold_lengths(pairs.take(k as int)),
            decreases count - k,
        {
            let (i, j) = self.seg_pair_at(k);
            let v1 = self.at(i);
            let v2 = self.at(j);
            acc = acc.add(crate::seg_math::seg_length(v1, v2));
            proof {
                assert(pairs.take(k + 1).drop_last() =~= pairs.take(k as int));
                assert(pairs.take(k + 1).last() == pairs[k as int]);
            }
            k = k + 1;
        }
        proof {
            assert(pairs.take(count as int) =~= pairs);
        }
        acc
    }

    /// Signed area of the polyline: exactly zero when open; else the
    /// shoelace sum over the chords plus the circular segment areas of the
    /// arcs, halved. Positive for a counter clockwise path, negative for a
    /// clockwise one.
    pub fn area(&self) -> (r: T)
        ensures
            r == spec_area(self@, self.spec_is_closed()),
    {
        if !self.is_closed() {
            return T::zero();
        }
        let ghost pairs = spec_seg_vertex_pairs(self@, self.spec_is_closed());
        let count = self.seg_count();
        let mut double_total_area = T::zero();
        let mut k: usize = 0;
        while k < count
            invariant
                k <= count,
                count == spec_seg_count(self@.len() as int, self.spec_is_closed()),
                pairs == spec_seg_vertex_pairs(self@, self.spec_is_closed()),
                double_total_area == spec_fold_area(pairs.take(k as int)),
            decreases count - k,
        {
            let (i, j) = self.seg_pair_at(k);
            let v1 = self.at(i);
            let v2 = self.at(j);
            double_total_area = double_total_area.add(v1.x.mul(v2.y)).sub(v1.y.mul(v2.x));
            if !v1.bulge_is_zero() {
                let b = v1.bulge.abs();
                let sweep_angle = crate::seg_math::angle_from_bulge(b);
                let triangle_base = v2.pos().sub(v1.pos()).length();
                let radius = triangle_base.mul(b.mul(b).add(T::one())).div(T::four().mul(b));
                let sagitta = b.mul(triangle_base).div(T::two());
                let triangle_height = radius.sub(sagitta);
                let double_sector_area = sweep_angle.mul(radius).mul(radius);
                let double_triangle_area = triangle_base.mul(triangle_height);
                let mut double_arc_area = double_sector_area.sub(double_triangle_area);
                if v1.bulge_is_neg() {
                    double_arc_area = double_arc_area.neg();
                }
                double_total_area = double_total_area.add(double_arc_area);
            }
            proof {
                assert(pairs.take(k + 1).drop_last() =~= pairs.take(k as int));
                assert(pairs.take(k + 1).last() == pairs[k as int]);
            }
            k = k + 1;
        }
        proof {
            assert(pairs.take(count as int) =~= pairs);
        }
        double_total_area.div(T::two())
    }

    /// The XY extents of the polyline: nothing when empty; the degenerate
    /// box of the single vertex when there is only one; else the box of all
    /// vertexes widened by the tight bounding box of every arc segment.
    pub fn extents(&self) -> (r: Option<AABB<T>>)
        ensures
            r == spec_extents(self@, self.spec_is_closed()),
    {
        if self.len() == 0 {
            return Option::None;
        }
        let ghost pairs = spec_seg_vertex_pairs(self@, self.spec_is_closed());
        let v0 = self.at(0);
        let mut result = AABB { min_x: v0.x, min_y: v0.y, max_x: v0.x, max_y: v0.y };
        let count = self.seg_count();
        let mut k: usize = 0;
        while k < count
            invariant
                k <= count,
                count == spec_seg_count(self@.len() as int, self.spec_is_closed()),
                self@.len() > 0,
                pairs == spec_seg_vertex_pairs(self@, self.spec_is_closed()),
                result == spec_fold_extents(
                    (AABB {
                        min_x: self@[0].x,
                        min_y: self@[0].y,
                        max_x: self@[0].x,
                        max_y: self@[0].y,
                    }),
                    pairs.take(k as int),
                ),
            decreases count - k,
        {
            let (i, j) = self.seg_pair_at(k);
            let v1 = self.at(i);
            let v2 = self.at(j);
            if v1.bulge_is_zero() {
                if v2.x.lt(result.min_x) {
                    result.min_x = v2.x;
                } else if result.max_x.lt(v2.x) {
                    result.max_x = v2.x;
                }
                if v2.y.lt(result.min_y) {
                    result.min_y = v2.y;
                } else if result.max_y.lt(v2.y) {
                    result.max_y = v2.y;
                }
            } else {
                let arc_extents = crate::seg_math::arc_seg_bounding_box(v1, v2);
                result = AABB {
                    min_x: crate::scalar::min_real(result.min_x, arc_extents.min_x),
                    min_y: crate::scalar::min_real(result.min_y, arc_extents.min_y),
                    max_x: crate::scalar::max_real(result.max_x, arc_extents.max_x),
                    max_y: crate::scalar::max_real(result.max_y, arc_extents.max_y),
                };
            }
            proof {
                assert(pairs.take(k + 1).drop_last() =~= pairs.take(k as int));
                assert(pairs.take(k + 1).last() == pairs[k as int]);
            }
            k = k + 1;
        }
        proof {
            assert(pairs.take(count as int) =~= pairs);
        }
        Option::Some(result)
    }

    /// Find the closest segment point on the polyline to `point`: nothing
    /// when empty; the single vertex and its distance when there is only
    /// one; else the first segment of the traversal whose closest point has
    /// the strictly smallest squared distance.
    pub fn closest_point(&self, point: Vector2<T>) -> (r: Option<ClosestPointResult<T>>)
        ensures
            r == spec_closest_point(self@, self.spec_is_closed(), point),
    {
        if self.len() == 0 {
            return Option::None;
        }
        let v0 = self.at(0);
        let mut result = ClosestPointResult {
            seg_start_index: 0usize,
            seg_point: v0.pos(),
            distance: T::max_value(),
        };
        if self.len() == 1 {
            result.distance = result.seg_point.sub(point).length();
            return Option::Some(result);
        }
        let ghost pairs = spec_seg_index_pairs(self@.len() as int, self.spec_is_closed());
        proof {
            crate::traversal::lemma_seg_index_pairs_in_range(
                self@.len() as int,
                self.spec_is_closed(),
            );
        }
        let mut dist_squared = T::max_value();
        let count = self.seg_count();
        let mut k: usize = 0;
        while k < count
            invariant
                k <= count,
                count == spec_seg_count(self@.len() as int, self.spec_is_closed()),
                self@.len() > 1,
                pairs == spec_seg_index_pairs(self@.len() as int, self.spec_is_closed()),
                (result.seg_start_index as int, result.seg_point, dist_squared)
                    == spec_fold_closest(self@, pairs, point, k as int),
            decreases count - k,
        {
            let (i, j) = self.seg_pair_at(k);
            let v1 = self.at(i);
            let v2 = self.at(j);
            let cp = crate::seg_math::seg_closest_point(v1, v2, point);
            let diff_v = point.sub(cp);
            let dist2 = diff_v.length_squared();
            if dist2.lt(dist_squared) {
                result.seg_start_index = i;
                result.seg_point = cp;
                dist_squared = dist2;
            }
            k = k + 1;
        }
        result.distance = dist_squared.sqrt();
        Option::Some(result)
    }
}

} // verus!
