use vstd::prelude::*;

use crate::aabb::AABB;
use crate::pline_vertex::PlineVertex;
use crate::pline_vertex::spec_bulge_is_zero;
use crate::scalar::Real;
use crate::scalar::max_real;
use crate::scalar::min_real;
use crate::scalar::spec_max_real;
use crate::scalar::spec_min_real;
use crate::vector2::Vector2;
use crate::vector2::spec_dist_squared;
use crate::vector2::spec_dot;
use crate::vector2::spec_length;
use crate::vector2::spec_vec_sub;

verus! {

// Stateless segment geometry primitives. A segment is given by its two
// endpoint vertexes; the bulge of the first decides whether it is a straight
// line or a circular arc and, if an arc, its included angle and orientation.

/// Included angle of an arc whose bulge magnitude is `b`: four times the arc
/// tangent of `b`.
pub open spec fn spec_angle_from_bulge<T: Real>(b: T) -> T {
    T::spec_four().spec_mul(b.spec_atan())
}

/// Included angle of an arc whose bulge magnitude is `b`.
pub fn angle_from_bulge<T: Real>(b: T) -> (r: T)
    ensures
        r == spec_angle_from_bulge(b),
{
    T::four().mul(b.atan())
}

/// Direction angle of the point `p` as seen from `origin`.
pub open spec fn spec_angle<T: Real>(origin: Vector2<T>, p: Vector2<T>) -> T {
    p.y.spec_sub(origin.y).spec_atan2(p.x.spec_sub(origin.x))
}

/// Direction angle of the point `p` as seen from `origin`.
pub fn angle<T: Real>(origin: Vector2<T>, p: Vector2<T>) -> (r: T)
    ensures
        r == spec_angle(origin, p),
{
    p.y.sub(origin.y).atan2(p.x.sub(origin.x))
}

/// The point on the circle of radius `radius` around `center` at direction
/// angle `angle_rad`.
pub open spec fn spec_point_on_circle<T: Real>(
    radius: T,
    center: Vector2<T>,
    angle_rad: T,
) -> Vector2<T> {
    Vector2 {
        x: center.x.spec_add(radius.spec_mul(angle_rad.spec_cos())),
        y: center.y.spec_add(radius.spec_mul(angle_rad.spec_sin())),
    }
}

/// The point on the circle of radius `radius` around `center` at direction
/// angle `angle_rad`.
pub fn point_on_circle<T: Real>(radius: T, center: Vector2<T>, angle_rad: T) -> (r: Vector2<T>)
    ensures
        r == spec_point_on_circle(radius, center, angle_rad),
{
    Vector2 {
        x: center.x.add(radius.mul(angle_rad.cos())),
        y: center.y.add(radius.mul(angle_rad.sin())),
    }
}

/// Twice the signed area of the triangle `p0`, `p1`, `p2`: positive when the
/// three points wind counter clockwise, so when `p2` is left of the directed
/// line from `p0` through `p1`.
pub open spec fn spec_cross_from<T: Real>(p0: Vector2<T>, p1: Vector2<T>, p2: Vector2<T>) -> T {
    p1.x.spec_sub(p0.x).spec_mul(p2.y.spec_sub(p0.y)).spec_sub(
        p2.x.spec_sub(p0.x).spec_mul(p1.y.spec_sub(p0.y)),
    )
}

/// Whether `p2` is strictly left of the directed line from `p0` through `p1`.
pub open spec fn spec_is_left<T: Real>(p0: Vector2<T>, p1: Vector2<T>, p2: Vector2<T>) -> bool {
    T::spec_zero().spec_lt(spec_cross_from(p0, p1, p2))
}

/// Whether `p2` is left of or on the directed line from `p0` through `p1`.
pub open spec fn spec_is_left_or_equal<T: Real>(
    p0: Vector2<T>,
    p1: Vector2<T>,
    p2: Vector2<T>,
) -> bool {
    T::spec_zero().spec_lte(spec_cross_from(p0, p1, p2))
}

/// Whether `p2` is strictly left of the directed line from `p0` through `p1`.
pub fn is_left<T: Real>(p0: Vector2<T>, p1: Vector2<T>, p2: Vector2<T>) -> (r: bool)
    ensures
        r == spec_is_left(p0, p1, p2),
{
    let cross = p1.x.sub(p0.x).mul(p2.y.sub(p0.y)).sub(p2.x.sub(p0.x).mul(p1.y.sub(p0.y)));
    T::zero().lt(cross)
}

/// Whether `p2` is left of or on the directed line from `p0` through `p1`.
pub fn is_left_or_equal<T: Real>(p0: Vector2<T>, p1: Vector2<T>, p2: Vector2<T>) -> (r: bool)
    ensures
        r == spec_is_left_or_equal(p0, p1, p2),
{
    let cross = p1.x.sub(p0.x).mul(p2.y.sub(p0.y)).sub(p2.x.sub(p0.x).mul(p1.y.sub(p0.y)));
    T::zero().lte(cross)
}

/// Radius and center of the arc segment from `v1` to `v2`.
///
/// The radius comes from the chord length `c` and bulge magnitude `b` as
/// `c * (b * b + 1) / (4 * b)`; the center sits on the perpendicular of the
/// chord through its midpoint, at the radius minus the sagitta `b * c / 2`
/// away from it, on the left of the directed chord for a positive bulge and
/// on the right for a negative one.
pub open spec fn spec_seg_arc_radius_and_center<T: Real>(
    v1: PlineVertex<T>,
    v2: PlineVertex<T>,
) -> (T, Vector2<T>) {
    let b = v1.bulge.spec_abs();
    let dx = v2.x.spec_sub(v1.x);
    let dy = v2.y.spec_sub(v1.y);
    let chord = dx.spec_mul(dx).spec_add(dy.spec_mul(dy)).spec_sqrt();
    let radius = chord.spec_mul(b.spec_mul(b).spec_add(T::spec_one())).spec_div(
        T::spec_four().spec_mul(b),
    );
    let sagitta = b.spec_mul(chord).spec_div(T::spec_two());
    let offset = radius.spec_sub(sagitta);
    let mx = v1.x.spec_add(v2.x).spec_div(T::spec_two());
    let my = v1.y.spec_add(v2.y).spec_div(T::spec_two());
    let ox = dy.spec_div(chord).spec_mul(offset);
    let oy = dx.spec_div(chord).spec_mul(offset);
    if v1.bulge.spec_lt(T::spec_zero()) {
        (radius, Vector2 { x: mx.spec_add(ox), y: my.spec_sub(oy) })
    } else {
        (radius, Vector2 { x: mx.spec_sub(ox), y: my.spec_add(oy) })
    }
}

/// Radius and center of the arc segment from `v1` to `v2`.
pub fn seg_arc_radius_and_center<T: Real>(v1: PlineVertex<T>, v2: PlineVertex<T>) -> (r: (
    T,
    Vector2<T>,
))
    ensures
        r == spec_seg_arc_radius_and_center(v1, v2),
{
    let b = v1.bulge.abs();
    let dx = v2.x.sub(v1.x);
    let dy = v2.y.sub(v1.y);
    let chord = dx.mul(dx).add(dy.mul(dy)).sqrt();
    let radius = chord.mul(b.mul(b).add(T::one())).div(T::four().mul(b));
    let sagitta = b.mul(chord).div(T::two());
    let offset = radius.sub(sagitta);
    let mx = v1.x.add(v2.x).div(T::two());
    let my = v1.y.add(v2.y).div(T::two());
    let ox = dy.div(chord).mul(offset);
    let oy = dx.div(chord).mul(offset);
    if v1.bulge.lt(T::zero()) {
        (radius, Vector2 { x: mx.add(ox), y: my.sub(oy) })
    } else {
        (radius, Vector2 { x: mx.sub(ox), y: my.add(oy) })
    }
}

/// Length of the segment from `v1` to `v2`: the Euclidean distance of the
/// endpoints for a line, the radius times the included angle for an arc.
pub open spec fn spec_seg_length<T: Real>(v1: PlineVertex<T>, v2: PlineVertex<T>) -> T {
    if spec_bulge_is_zero(v1) {
        spec_length(spec_vec_sub(crate::pline_vertex::spec_pos(v2), crate::pline_vertex::spec_pos(v1)))
    } else {
        let radius = spec_seg_arc_radius_and_center(v1, v2).0;
        radius.spec_mul(spec_angle_from_bulge(v1.bulge.spec_abs()))
    }
}

/// Length of the segment from `v1` to `v2`.
pub fn seg_length<T: Real>(v1: PlineVertex<T>, v2: PlineVertex<T>) -> (r: T)
    ensures
        r == spec_seg_length(v1, v2),
{
    if v1.bulge_is_zero() {
        v2.pos().sub(v1.pos()).length()
    } else {
        let rc = seg_arc_radius_and_center(v1, v2);
        rc.0.mul(angle_from_bulge(v1.bulge.abs()))
    }
}

/// Whether `point` lies within the sweep of the counter clockwise arc around
/// `center` from `arc_start` to `arc_end`, decided by which sides of the rays
/// from the center through the two ends the point falls on.
pub open spec fn spec_point_within_ccw_sweep<T: Real>(
    center: Vector2<T>,
    arc_start: Vector2<T>,
    arc_end: Vector2<T>,
    point: Vector2<T>,
) -> bool {
    if spec_is_left_or_equal(center, arc_start, arc_end) {
        spec_is_left_or_equal(center, arc_start, point) && !spec_is_left(center, arc_end, point)
    } else {
        spec_is_left_or_equal(center, arc_start, point) || !spec_is_left(center, arc_end, point)
    }
}

/// Whether `point` lies within the sweep of the arc around `center` from
/// `arc_start` to `arc_end`, clockwise when `is_cw` and counter clockwise
/// otherwise.
pub open spec fn spec_point_within_arc_sweep<T: Real>(
    center: Vector2<T>,
    arc_start: Vector2<T>,
    arc_end: Vector2<T>,
    is_cw: bool,
    point: Vector2<T>,
) -> bool {
    if is_cw {
        spec_point_within_ccw_sweep(center, arc_end, arc_start, point)
    } else {
        spec_point_within_ccw_sweep(center, arc_start, arc_end, point)
    }
}

/// Whether `point` lies within the sweep of the arc around `center` from
/// `arc_start` to `arc_end`, clockwise when `is_cw` and counter clockwise
/// otherwise.
pub fn point_within_arc_sweep<T: Real>(
    center: Vector2<T>,
    arc_start: Vector2<T>,
    arc_end: Vector2<T>,
    is_cw: bool,
    point: Vector2<T>,
) -> (r: bool)
    ensures
        r == spec_point_within_arc_sweep(center, arc_start, arc_end, is_cw, point),
{
    let s = if is_cw {
        arc_end
    } else {
        arc_start
    };
    let e = if is_cw {
        arc_start
    } else {
        arc_end
    };
    if is_left_or_equal(center, s, e) {
        is_left_or_equal(center, s, point) && !is_left(center, e, point)
    } else {
        is_left_or_equal(center, s, point) || !is_left(center, e, point)
    }
}

/// Tight bounding box of the arc segment from `v1` to `v2`: the box of the
/// two endpoints, widened to each axis extreme point of the arc's circle that
/// lies within the arc's sweep.
pub open spec fn spec_arc_seg_bounding_box<T: Real>(
    v1: PlineVertex<T>,
    v2: PlineVertex<T>,
) -> AABB<T> {
    let rc = spec_seg_arc_radius_and_center(v1, v2);
    let radius = rc.0;
    let center = rc.1;
    let s = crate::pline_vertex::spec_pos(v1);
    let e = crate::pline_vertex::spec_pos(v2);
    let is_cw = v1.bulge.spec_lt(T::spec_zero());
    let min_x0 = spec_min_real(v1.x, v2.x);
    let min_y0 = spec_min_real(v1.y, v2.y);
    let max_x0 = spec_max_real(v1.x, v2.x);
    let max_y0 = spec_max_real(v1.y, v2.y);
    let right = Vector2 { x: center.x.spec_add(radius), y: center.y };
    let top = Vector2 { x: center.x, y: center.y.spec_add(radius) };
    let left = Vector2 { x: center.x.spec_sub(radius), y: center.y };
    let bottom = Vector2 { x: center.x, y: center.y.spec_sub(radius) };
    let max_x1 = if spec_point_within_arc_sweep(center, s, e, is_cw, right) {
        spec_max_real(max_x0, right.x)
    } else {
        max_x0
    };
    let max_y1 = if spec_point_within_arc_sweep(center, s, e, is_cw, top) {
        spec_max_real(max_y0, top.y)
    } else {
        max_y0
    };
    let min_x1 = if spec_point_within_arc_sweep(center, s, e, is_cw, left) {
        spec_min_real(min_x0, left.x)
    } else {
        min_x0
    };
    let min_y1 = if spec_point_within_arc_sweep(center, s, e, is_cw, bottom) {
        spec_min_real(min_y0, bottom.y)
    } else {
        min_y0
    };
    AABB { min_x: min_x1, min_y: min_y1, max_x: max_x1, max_y: max_y1 }
}

/// Tight bounding box of the arc segment from `v1` to `v2`.
pub fn arc_seg_bounding_box<T: Real>(v1: PlineVertex<T>, v2: PlineVertex<T>) -> (r: AABB<T>)
    ensures
        r == spec_arc_seg_bounding_box(v1, v2),
{
    let rc = seg_arc_radius_and_center(v1, v2);
    let radius = rc.0;
    let center = rc.1;
    let s = v1.pos();
    let e = v2.pos();
    let is_cw = v1.bulge.lt(T::zero());
    let mut min_x = min_real(v1.x, v2.x);
    let mut min_y = min_real(v1.y, v2.y);
    let mut max_x = max_real(v1.x, v2.x);
    let mut max_y = max_real(v1.y, v2.y);
    let right = Vector2 { x: center.x.add(radius), y: center.y };
    let top = Vector2 { x: center.x, y: center.y.add(radius) };
    let left = Vector2 { x: center.x.sub(radius), y: center.y };
    let bottom = Vector2 { x: center.x, y: center.y.sub(radius) };
    if point_within_arc_sweep(center, s, e, is_cw, right) {
        max_x = max_real(max_x, right.x);
    }
    if point_within_arc_sweep(center, s, e, is_cw, top) {
        max_y = max_real(max_y, top.y);
    }
    if point_within_arc_sweep(center, s, e, is_cw, left) {
        min_x = min_real(min_x, left.x);
    }
    if point_within_arc_sweep(center, s, e, is_cw, bottom) {
        min_y = min_real(min_y, bottom.y);
    }
    AABB { min_x, min_y, max_x, max_y }
}

/// Cheap conservative bounding box of the segment from `v1` to `v2`: the box
/// of the endpoints for a line; for an arc, the box of the endpoints and of
/// the arc's apex, the point where the arc is farthest from its chord.
pub open spec fn spec_seg_fast_approx_bounding_box<T: Real>(
    v1: PlineVertex<T>,
    v2: PlineVertex<T>,
) -> AABB<T> {
    let min_x0 = spec_min_real(v1.x, v2.x);
    let min_y0 = spec_min_real(v1.y, v2.y);
    let max_x0 = spec_max_real(v1.x, v2.x);
    let max_y0 = spec_max_real(v1.y, v2.y);
    if spec_bulge_is_zero(v1) {
        AABB { min_x: min_x0, min_y: min_y0, max_x: max_x0, max_y: max_y0 }
    } else {
        let dx = v2.x.spec_sub(v1.x);
        let dy = v2.y.spec_sub(v1.y);
        let half = v1.bulge.spec_div(T::spec_two());
        let apex_x = v1.x.spec_add(v2.x).spec_div(T::spec_two()).spec_add(dy.spec_mul(half));
        let apex_y = v1.y.spec_add(v2.y).spec_div(T::spec_two()).spec_sub(dx.spec_mul(half));
        AABB {
            min_x: spec_min_real(min_x0, apex_x),
            min_y: spec_min_real(min_y0, apex_y),
            max_x: spec_max_real(max_x0, apex_x),
            max_y: spec_max_real(max_y0, apex_y),
        }
    }
}

/// Cheap conservative bounding box of the segment from `v1` to `v2`.
pub fn seg_fast_approx_bounding_box<T: Real>(v1: PlineVertex<T>, v2: PlineVertex<T>) -> (r: AABB<
    T,
>)
    ensures
        r == spec_seg_fast_approx_bounding_box(v1, v2),
{
    let min_x0 = min_real(v1.x, v2.x);
    let min_y0 = min_real(v1.y, v2.y);
    let max_x0 = max_real(v1.x, v2.x);
    let max_y0 = max_real(v1.y, v2.y);
    if v1.bulge_is_zero() {
        AABB { min_x: min_x0, min_y: min_y0, max_x: max_x0, max_y: max_y0 }
    } else {
        let dx = v2.x.sub(v1.x);
        let dy = v2.y.sub(v1.y);
        let half = v1.bulge.div(T::two());
        let apex_x = v1.x.add(v2.x).div(T::two()).add(dy.mul(half));
        let apex_y = v1.y.add(v2.y).div(T::two()).sub(dx.mul(half));
        AABB {
            min_x: min_real(min_x0, apex_x),
            min_y: min_real(min_y0, apex_y),
            max_x: max_real(max_x0, apex_x),
            max_y: max_real(max_y0, apex_y),
        }
    }
}

/// Closest point to `point` on the segment from `v1` to `v2`.
///
/// For a line the query point is projected onto the segment and clamped to
/// it. For an arc, the point of the arc's circle in the direction of the
/// query point from the center is taken when it falls within the arc's
/// sweep, else the nearer endpoint; a query point on the center itself maps
/// to the arc's start.
pub open spec fn spec_seg_closest_point<T: Real>(
    v1: PlineVertex<T>,
    v2: PlineVertex<T>,
    point: Vector2<T>,
) -> Vector2<T> {
    let s = crate::pline_vertex::spec_pos(v1);
    let e = crate::pline_vertex::spec_pos(v2);
    if spec_bulge_is_zero(v1) {
        let d = spec_vec_sub(e, s);
        let num = spec_dot(spec_vec_sub(point, s), d);
        let den = spec_dot(d, d);
        if num.spec_lte(T::spec_zero()) {
            s
        } else if den.spec_lte(num) {
            e
        } else {
            let t = num.spec_div(den);
            Vector2 { x: s.x.spec_add(t.spec_mul(d.x)), y: s.y.spec_add(t.spec_mul(d.y)) }
        }
    } else {
        let rc = spec_seg_arc_radius_and_center(v1, v2);
        let radius = rc.0;
        let center = rc.1;
        if crate::scalar::spec_fuzzy_eq_eps(point.x, center.x, T::spec_fuzzy_epsilon())
            && crate::scalar::spec_fuzzy_eq_eps(point.y, center.y, T::spec_fuzzy_epsilon()) {
            s
        } else {
            let dist = spec_length(spec_vec_sub(point, center));
            let scale = radius.spec_div(dist);
            let candidate = Vector2 {
                x: center.x.spec_add(scale.spec_mul(point.x.spec_sub(center.x))),
                y: center.y.spec_add(scale.spec_mul(point.y.spec_sub(center.y))),
            };
            let is_cw = v1.bulge.spec_lt(T::spec_zero());
            if spec_point_within_arc_sweep(center, s, e, is_cw, candidate) {
                candidate
            } else if spec_dist_squared(point, s).spec_lte(spec_dist_squared(point, e)) {
                s
            } else {
                e
            }
        }
    }
}

/// Closest point to `point` on the segment from `v1` to `v2`.
pub fn seg_closest_point<T: Real>(v1: PlineVertex<T>, v2: PlineVertex<T>, point: Vector2<T>) -> (r:
    Vector2<T>)
    ensures
        r == spec_seg_closest_point(v1, v2, point),
{
    let s = v1.pos();
    let e = v2.pos();
    if v1.bulge_is_zero() {
        let d = e.sub(s);
        let num = point.sub(s).dot(d);
        let den = d.dot(d);
        if num.lte(T::zero()) {
            s
        } else if den.lte(num) {
            e
        } else {
            let t = num.div(den);
            Vector2 { x: s.x.add(t.mul(d.x)), y: s.y.add(t.mul(d.y)) }
        }
    } else {
        let rc = seg_arc_radius_and_center(v1, v2);
        let radius = rc.0;
        let center = rc.1;
        if point.fuzzy_eq_eps(center, T::fuzzy_epsilon()) {
            s
        } else {
            let dist = point.sub(center).length();
            let scale = radius.div(dist);
            let candidate = Vector2 {
                x: center.x.add(scale.mul(point.x.sub(center.x))),
                y: center.y.add(scale.mul(point.y.sub(center.y))),
            };
            let is_cw = v1.bulge.lt(T::zero());
            if point_within_arc_sweep(center, s, e, is_cw, candidate) {
                candidate
            } else if crate::vector2::dist_squared(point, s).lte(
                crate::vector2::dist_squared(point, e),
            ) {
                s
            } else {
                e
            }
        }
    }
}

} // verus!
