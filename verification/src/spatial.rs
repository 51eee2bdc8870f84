use vstd::prelude::*;

use crate::aabb::AABB;
use crate::pline_vertex::PlineVertex;
use crate::polyline::Polyline;
use crate::scalar::Real;
use crate::seg_math::seg_fast_approx_bounding_box;
use crate::seg_math::spec_seg_fast_approx_bounding_box;
use crate::traversal::spec_seg_count;
use crate::traversal::spec_seg_vertex_pairs;

verus! {

// Broad phase spatial index construction: one cheap approximate bounding
// box per segment, in traversal order, kept for overlap queries. The boxes
// are held in a plain vector here; an outside bulk loaded index structure
// can be filled from the same boxes where consumers need sublinear queries.

/// The approximate bounding boxes of the segments `pairs`, in traversal
/// order.
pub open spec fn spec_approx_boxes<T: Real>(
    pairs: Seq<(PlineVertex<T>, PlineVertex<T>)>,
) -> Seq<AABB<T>> {
    pairs.map_values(|p: (PlineVertex<T>, PlineVertex<T>)| spec_seg_fast_approx_bounding_box(p.0, p.1))
}

/// Whether the boxes `a` and `b` overlap, boundary touches included.
pub open spec fn spec_boxes_overlap<T: Real>(a: AABB<T>, b: AABB<T>) -> bool {
    a.min_x.spec_lte(b.max_x) && b.min_x.spec_lte(a.max_x) && a.min_y.spec_lte(b.max_y)
        && b.min_y.spec_lte(a.max_y)
}

/// The positions among the first `k` boxes whose box overlaps `query`, in
/// ascending order.
pub open spec fn spec_overlap_positions<T: Real>(
    boxes: Seq<AABB<T>>,
    query: AABB<T>,
    k: int,
) -> Seq<usize>
    decreases k,
{
    if k <= 0 {
        Seq::empty()
    } else {
        let prefix = spec_overlap_positions(boxes, query, k - 1);
        if spec_boxes_overlap(boxes[k - 1], query) {
            prefix.push((k - 1) as usize)
        } else {
            prefix
        }
    }
}

/// Broad phase index over a polyline's segments: the cheap approximate
/// bounding box of each segment, position `k` holding the box of the `k`-th
/// segment of the traversal order. Immutable once built; overlap queries
/// scan the boxes.
pub struct ApproxSpatialIndex<T> {
    boxes: Vec<AABB<T>>,
}

impl<T> View for ApproxSpatialIndex<T> {
    type V = Seq<AABB<T>>;

    closed spec fn view(&self) -> Seq<AABB<T>> {
        self.boxes@
    }
}

impl<T: Real> ApproxSpatialIndex<T> {
    /// The number of segment boxes held.
    pub fn len(&self) -> (r: usize)
        ensures
            r == self@.len(),
    {
        self.boxes.len()
    }

    /// The box at position `k`: the approximate bounding box of the `k`-th
    /// segment of the traversal order.
    pub fn box_at(&self, k: usize) -> (r: AABB<T>)
        requires
            k < self@.len(),
        ensures
            r == self@[k as int],
    {
        self.boxes[k]
    }

    /// The positions, in ascending order, of all segment boxes that overlap
    /// the query box given (boundary touches included).
    pub fn query(&self, min_x: T, min_y: T, max_x: T, max_y: T) -> (r: Vec<usize>)
        ensures
            r@ == spec_overlap_positions(
                self@,
                (AABB { min_x, min_y, max_x, max_y }),
                self@.len() as int,
            ),
    {
        let query_box = AABB { min_x, min_y, max_x, max_y };
        let mut out: Vec<usize> = Vec::new();
        let mut k: usize = 0;
        while k < self.boxes.len()
            invariant
                k <= self@.len(),
                out@ == spec_overlap_positions(self@, query_box, k as int),
            decreases self@.len() - k,
        {
            let b = self.boxes[k];
            if b.min_x.lte(query_box.max_x) && query_box.min_x.lte(b.max_x) && b.min_y.lte(
                query_box.max_y,
            ) && query_box.min_y.lte(b.max_y) {
                out.push(k);
            }
            k = k + 1;
        }
        out
    }
}

impl<T: Real> Polyline<T> {
    /// Build a broad phase spatial index over the polyline's segments: one
    /// cheap approximate bounding box per segment, in traversal order (the
    /// wraparound segment's box first when closed). Nothing is built with
    /// fewer than two vertexes.
    pub fn create_approx_spatial_index(&self) -> (r: Option<ApproxSpatialIndex<T>>)
        ensures
            (r is Some) == (self@.len() >= 2),
            r matches Option::Some(index) ==> index@ == spec_approx_boxes(
                spec_seg_vertex_pairs(self@, self.spec_is_closed()),
            ),
    {
        let ln = self.len();
        if ln < 2 {
            return Option::None;
        }
        let ghost pairs = spec_seg_vertex_pairs(self@, self.spec_is_closed());
        let count = self.seg_count();
        proof {
            crate::traversal::lemma_seg_index_pairs_in_range(
                self@.len() as int,
                self.spec_is_closed(),
            );
            assert(pairs.len() == count);
        }
        let mut boxes: Vec<AABB<T>> = Vec::with_capacity(count);
        let mut k: usize = 0;
        while k < count
            invariant
                k <= count,
                count == spec_seg_count(self@.len() as int, self.spec_is_closed()),
                count == pairs.len(),
                pairs == spec_seg_vertex_pairs(self@, self.spec_is_closed()),
                boxes@ == spec_approx_boxes(pairs).take(k as int),
            decreases count - k,
        {
            let (i, j) = self.seg_pair_at(k);
            let approx_aabb = seg_fast_approx_bounding_box(self.at(i), self.at(j));
            boxes.push(approx_aabb);
            proof {
                assert(spec_approx_boxes(pairs).take(k + 1) =~= spec_approx_boxes(pairs).take(
                    k as int,
                ).push(spec_approx_boxes(pairs)[k as int]));
            }
            k = k + 1;
        }
        proof {
            assert(spec_approx_boxes(pairs).take(count as int) =~= spec_approx_boxes(pairs));
        }
        Option::Some(ApproxSpatialIndex { boxes })
    }
}

} // verus!
