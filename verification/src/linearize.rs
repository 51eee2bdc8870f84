use vstd::prelude::*;

use crate::pline_vertex::PlineVertex;
use crate::pline_vertex::spec_bulge_is_zero;
use crate::pline_vertex::spec_pos;
use crate::polyline::Polyline;
use crate::scalar::Real;
use crate::scalar::spec_fuzzy_lt;
use crate::seg_math::spec_angle;
use crate::seg_math::spec_angle_from_bulge;
use crate::seg_math::spec_point_on_circle;
use crate::seg_math::spec_seg_arc_radius_and_center;
use crate::traversal::spec_seg_count;
use crate::traversal::spec_seg_vertex_pairs;
use crate::vector2::Vector2;

verus! {

// Arc linearization: every arc segment is replaced by a chain of chords
// whose endpoints lie exactly on the arc, with the perpendicular deviation
// of each chord from the arc bounded by the caller's error distance. The
// chord count per arc comes from the included angle divided by the largest
// angle a chord may subtend at that deviation; the only failure is that
// count not being representable in the machine's whole number range.

/// The equal angle chord points of one linearized arc, from the `i`-th of
/// `count` onward: each point sits on the arc's circle at the start angle
/// plus `i` times the angle offset. Nothing when some point index is not
/// representable in the scalar type.
pub open spec fn spec_arc_approx_points<T: Real>(
    radius: T,
    center: Vector2<T>,
    start_angle: T,
    angle_offset: T,
    count: int,
    i: int,
) -> Option<Seq<PlineVertex<T>>>
    decreases count - i,
{
    if i >= count {
        Option::Some(Seq::empty())
    } else {
        match T::spec_from_usize(i as usize) {
            Option::None => Option::None,
            Option::Some(angle_pos) => {
                let ang = angle_pos.spec_mul(angle_offset).spec_add(start_angle);
                let p = spec_point_on_circle(radius, center, ang);
                match spec_arc_approx_points(radius, center, start_angle, angle_offset, count, i + 1) {
                    Option::None => Option::None,
                    Option::Some(rest) => Option::Some(
                        seq![(PlineVertex { x: p.x, y: p.y, bulge: T::spec_zero() })] + rest,
                    ),
                }
            },
        }
    }
}

/// The vertex run that one segment contributes to a linearized polyline: a
/// line segment passes its start vertex through; an arc whose radius is
/// within the error distance collapses to its start point as a line vertex;
/// any other arc becomes its start point followed by the equal angle chord
/// points. Nothing when the chord count or a point index is not
/// representable.
pub open spec fn spec_seg_approx_run<T: Real>(
    v1: PlineVertex<T>,
    v2: PlineVertex<T>,
    error_distance: T,
) -> Option<Seq<PlineVertex<T>>> {
    if spec_bulge_is_zero(v1) {
        Option::Some(seq![v1])
    } else {
        let rc = spec_seg_arc_radius_and_center(v1, v2);
        let radius = rc.0;
        let center = rc.1;
        if spec_fuzzy_lt(radius, error_distance) {
            Option::Some(seq![(PlineVertex { x: v1.x, y: v1.y, bulge: T::spec_zero() })])
        } else {
            let abs_error = error_distance.spec_abs();
            let start_angle = spec_angle(center, spec_pos(v1));
            let included_angle = spec_angle_from_bulge(v1.bulge.spec_abs());
            let seg_sub_angle = T::spec_two().spec_mul(
                T::spec_one().spec_sub(abs_error.spec_div(radius)).spec_acos().spec_abs(),
            );
            let seg_count = included_angle.spec_div(seg_sub_angle).spec_ceil();
            let angle_offset = if v1.bulge.spec_lt(T::spec_zero()) {
                included_angle.spec_neg().spec_div(seg_count)
            } else {
                included_angle.spec_div(seg_count)
            };
            match seg_count.spec_to_usize() {
                Option::None => Option::None,
                Option::Some(count) => {
                    match spec_arc_approx_points(
                        radius,
                        center,
                        start_angle,
                        angle_offset,
                        count as int,
                        1,
                    ) {
                        Option::None => Option::None,
                        Option::Some(pts) => Option::Some(
                            seq![(PlineVertex { x: v1.x, y: v1.y, bulge: T::spec_zero() })] + pts,
                        ),
                    }
                },
            }
        }
    }
}

/// The concatenated vertex runs of the segments `pairs`, in order; nothing
/// as soon as any run fails.
pub open spec fn spec_fold_approx<T: Real>(
    pairs: Seq<(PlineVertex<T>, PlineVertex<T>)>,
    error_distance: T,
) -> Option<Seq<PlineVertex<T>>>
    decreases pairs.len(),
{
    if pairs.len() == 0 {
        Option::Some(Seq::empty())
    } else {
        match spec_fold_approx(pairs.drop_last(), error_distance) {
            Option::None => Option::None,
            Option::Some(acc) => {
                match spec_seg_approx_run(pairs.last().0, pairs.last().1, error_distance) {
                    Option::None => Option::None,
                    Option::Some(run) => Option::Some(acc + run),
                }
            },
        }
    }
}

/// The vertex sequence of a polyline linearized with the error distance
/// given: the vertex runs of all segments in order and, for an open
/// polyline, the original final vertex appended verbatim since it bounds no
/// outgoing segment. Nothing exactly when some chord count or point index
/// is not representable.
pub open spec fn spec_arcs_to_approx_lines<T: Real>(
    s: Seq<PlineVertex<T>>,
    is_closed: bool,
    error_distance: T,
) -> Option<Seq<PlineVertex<T>>> {
    if s.len() == 0 {
        Option::Some(Seq::empty())
    } else {
        match spec_fold_approx(spec_seg_vertex_pairs(s, is_closed), error_distance) {
            Option::None => Option::None,
            Option::Some(acc) => Option::Some(
                if is_closed {
                    acc
                } else {
                    acc.push(s.last())
                },
            ),
        }
    }
}

/// A failed vertex run poisons the whole fold: once some prefix of the
/// segments folds to nothing, the full sequence does too.
proof fn lemma_fold_approx_none<T: Real>(
    pairs: Seq<(PlineVertex<T>, PlineVertex<T>)>,
    error_distance: T,
    k: int,
)
    requires
        0 <= k <= pairs.len(),
        spec_fold_approx(pairs.take(k), error_distance) is None,
    ensures
        spec_fold_approx(pairs, error_distance) is None,
    decreases pairs.len() - k,
{
    if k == pairs.len() {
        assert(pairs.take(k) =~= pairs);
    } else {
        assert(pairs.take(k + 1).drop_last() =~= pairs.take(k));
        lemma_fold_approx_none(pairs, error_distance, k + 1);
    }
}

impl<T: Real> Polyline<T> {
    /// Return a new polyline with every arc segment approximated by line
    /// segments circumscribed on the arc, each chord within
    /// `error_distance` of it, or nothing when a required chord count
    /// cannot be represented in the machine's whole number range. The
    /// result keeps the open/closed flag of the source.
    #[verifier::loop_isolation(false)]
    pub fn arcs_to_approx_lines(&self, error_distance: T) -> (r: Option<Polyline<T>>)
        ensures
            (r is None) == (spec_arcs_to_approx_lines(
                self@,
                self.spec_is_closed(),
                error_distance,
            ) is None),
            r matches Option::Some(p) ==> spec_arcs_to_approx_lines(
                self@,
                self.spec_is_closed(),
                error_distance,
            ) == Option::Some(p@) && p.spec_is_closed() == self.spec_is_closed(),
    {
        let mut result = Polyline::new();
        result.set_is_closed(self.is_closed());
        if self.len() == 0 {
            return Option::Some(result);
        }
        let abs_error = error_distance.abs();
        let ghost pairs = spec_seg_vertex_pairs(self@, self.spec_is_closed());
        let count = self.seg_count();
        proof {
            crate::traversal::lemma_seg_index_pairs_in_range(
                self@.len() as int,
                self.spec_is_closed(),
            );
            assert(pairs.len() == count);
        }
        let mut k: usize = 0;
        while k < count
            invariant
                k <= count,
                count == spec_seg_count(self@.len() as int, self.spec_is_closed()),
                count == pairs.len(),
                self@.len() > 0,
                abs_error == error_distance.spec_abs(),
                pairs == spec_seg_vertex_pairs(self@, self.spec_is_closed()),
                result.spec_is_closed() == self.spec_is_closed(),
                spec_fold_approx(pairs.take(k as int), error_distance) == Option::Some(result@),
            decreases count - k,
        {
            let (si, sj) = self.seg_pair_at(k);
            let v1 = self.at(si);
            let v2 = self.at(sj);
            let ghost base = result@;
            proof {
                assert(pairs.take(k + 1).drop_last() =~= pairs.take(k as int));
                assert(pairs.take(k + 1).last() == pairs[k as int]);
            }
            if v1.bulge_is_zero() {
                result.add_vertex(v1);
                proof {
                    assert(base + seq![v1] =~= base.push(v1));
                    assert(spec_fold_approx(pairs.take(k + 1), error_distance) == Option::Some(
                        result@,
                    ));
                }
                k = k + 1;
                continue ;
            }
            let rc = crate::seg_math::seg_arc_radius_and_center(v1, v2);
            let arc_radius = rc.0;
            let arc_center = rc.1;
            if crate::scalar::fuzzy_lt(arc_radius, error_distance) {
                result.add(v1.x, v1.y, T::zero());
                proof {
                    let collapsed = PlineVertex { x: v1.x, y: v1.y, bulge: T::spec_zero() };
                    assert(base + seq![collapsed] =~= base.push(collapsed));
                    assert(spec_fold_approx(pairs.take(k + 1), error_distance) == Option::Some(
                        result@,
                    ));
                }
                k = k + 1;
                continue ;
            }
            let start_angle = crate::seg_math::angle(arc_center, v1.pos());
            let included_angle = crate::seg_math::angle_from_bulge(v1.bulge.abs());
            let seg_sub_angle = T::two().mul(T::one().sub(abs_error.div(arc_radius)).acos().abs());
            let seg_count = included_angle.div(seg_sub_angle).ceil();
            let angle_offset = if v1.bulge_is_neg() {
                included_angle.neg().div(seg_count)
            } else {
                included_angle.div(seg_count)
            };
            let usize_count = match seg_count.to_usize() {
                Option::None => {
                    proof {
                        assert(spec_fold_approx(pairs.take(k + 1), error_distance) is None);
                        lemma_fold_approx_none(pairs, error_distance, k + 1);
                    }
                    return Option::None;
                },
                Option::Some(c) => c,
            };
            result.add(v1.x, v1.y, T::zero());
            let ghost start_vertex = PlineVertex { x: v1.x, y: v1.y, bulge: T::spec_zero() };
            let ghost mut collected: Seq<PlineVertex<T>> = Seq::empty();
            let mut i: usize = 1;
            proof {
                assert(Seq::empty() + spec_arc_approx_points(
                    arc_radius,
                    arc_center,
                    start_angle,
                    angle_offset,
                    usize_count as int,
                    1,
                ).unwrap() =~= spec_arc_approx_points(
                    arc_radius,
                    arc_center,
                    start_angle,
                    angle_offset,
                    usize_count as int,
                    1,
                ).unwrap());
            }
            while i < usize_count
                invariant
                    1 <= i,
                    i <= usize_count || i == 1,
                    result@ == base.push(start_vertex) + collected,
                    result.spec_is_closed() == self.spec_is_closed(),
                    ({
                        let whole = spec_arc_approx_points(
                            arc_radius,
                            arc_center,
                            start_angle,
                            angle_offset,
                            usize_count as int,
                            1,
                        );
                        let rest = spec_arc_approx_points(
                            arc_radius,
                            arc_center,
                            start_angle,
                            angle_offset,
                            usize_count as int,
                            i as int,
                        );
                        whole == match rest {
                            Option::None => Option::<Seq<PlineVertex<T>>>::None,
                            Option::Some(more) => Option::Some(collected + more),
                        }
                    }),
                decreases usize_count - i,
            {
                let angle_pos = match T::from_usize(i) {
                    Option::None => {
                        proof {
                            assert(spec_fold_approx(pairs.take(k + 1), error_distance) is None);
                            lemma_fold_approx_none(pairs, error_distance, k + 1);
                        }
                        return Option::None;
                    },
                    Option::Some(t) => t,
                };
                let ang = angle_pos.mul(angle_offset).add(start_angle);
                let pos = crate::seg_math::point_on_circle(arc_radius, arc_center, ang);
                result.add(pos.x, pos.y, T::zero());
                proof {
                    let newv = PlineVertex { x: pos.x, y: pos.y, bulge: T::spec_zero() };
                    let rest_next = spec_arc_approx_points(
                        arc_radius,
                        arc_center,
                        start_angle,
                        angle_offset,
                        usize_count as int,
                        i + 1,
                    );
                    if rest_next is Some {
                        assert(collected + (seq![newv] + rest_next.unwrap()) =~= collected.push(
                            newv,
                        ) + rest_next.unwrap());
                    }
                    assert(base.push(start_vertex) + collected.push(newv) =~= (base.push(
                        start_vertex,
                    ) + collected).push(newv));
                    collected = collected.push(newv);
                }
                i = i + 1;
            }
            proof {
                let whole = spec_arc_approx_points(
                    arc_radius,
                    arc_center,
                    start_angle,
                    angle_offset,
                    usize_count as int,
                    1,
                );
                assert(collected + Seq::<PlineVertex<T>>::empty() =~= collected);
                assert(whole == Option::Some(collected));
                assert(seq![start_vertex] + collected =~= collected.insert(0, start_vertex));
                assert(base + (seq![start_vertex] + collected) =~= base.push(start_vertex)
                    + collected);
                assert(spec_fold_approx(pairs.take(k + 1), error_distance) == Option::Some(
                    result@,
                ));
            }
            k = k + 1;
        }
        proof {
            assert(pairs.take(count as int) =~= pairs);
        }
        if !self.is_closed() {
            let last = self.at(self.len() - 1);
            result.add_vertex(last);
        }
        Option::Some(result)
    }
}

} // verus!
