use cavalier_contours::ClosestPointResult;
use cavalier_contours::PlineVertex;
use cavalier_contours::Polyline;
use cavalier_contours::Real;
use cavalier_contours::Vector2;

const PI: f64 = std::f64::consts::PI;
const EPS: f64 = 1e-8;

/// Double precision scalar for the geometry kernel's abstract scalar trait.
#[derive(Debug, Clone, Copy, PartialEq)]
struct F(f64);

impl Real for F {
    // The spec members mirror the executable operations value for value;
    // the verifier never reads this implementation, so the mirror and the
    // negation law stand here on this implementation's word.
    fn spec_add(self, other: Self) -> Self {
        F(self.0 + other.0)
    }
    fn spec_sub(self, other: Self) -> Self {
        F(self.0 - other.0)
    }
    fn spec_mul(self, other: Self) -> Self {
        F(self.0 * other.0)
    }
    fn spec_div(self, other: Self) -> Self {
        F(self.0 / other.0)
    }
    fn spec_neg(self) -> Self {
        F(-self.0)
    }
    fn spec_abs(self) -> Self {
        F(self.0.abs())
    }
    fn spec_sqrt(self) -> Self {
        F(self.0.sqrt())
    }
    fn spec_acos(self) -> Self {
        F(self.0.acos())
    }
    fn spec_atan(self) -> Self {
        F(self.0.atan())
    }
    fn spec_atan2(self, x: Self) -> Self {
        F(self.0.atan2(x.0))
    }
    fn spec_sin(self) -> Self {
        F(self.0.sin())
    }
    fn spec_cos(self) -> Self {
        F(self.0.cos())
    }
    fn spec_ceil(self) -> Self {
        F(self.0.ceil())
    }
    fn spec_lt(self, other: Self) -> bool {
        self.0 < other.0
    }
    fn spec_lte(self, other: Self) -> bool {
        self.0 <= other.0
    }
    fn spec_to_usize(self) -> Option<usize> {
        num_traits::ToPrimitive::to_usize(&self.0)
    }
    fn spec_from_usize(n: usize) -> Option<Self> {
        let v: Option<f64> = num_traits::NumCast::from(n);
        v.map(F)
    }
    fn spec_zero() -> Self {
        F(0.0)
    }
    fn spec_one() -> Self {
        F(1.0)
    }
    fn spec_two() -> Self {
        F(2.0)
    }
    fn spec_four() -> Self {
        F(4.0)
    }
    fn spec_pi() -> Self {
        F(std::f64::consts::PI)
    }
    fn spec_fuzzy_epsilon() -> Self {
        F(1e-8)
    }
    fn spec_max_value() -> Self {
        F(f64::MAX)
    }
    fn neg_involution(_x: Self) {
    }
    fn add(self, other: Self) -> Self {
        F(self.0 + other.0)
    }
    fn sub(self, other: Self) -> Self {
        F(self.0 - other.0)
    }
    fn mul(self, other: Self) -> Self {
        F(self.0 * other.0)
    }
    fn div(self, other: Self) -> Self {
        F(self.0 / other.0)
    }
    fn neg(self) -> Self {
        F(-self.0)
    }
    fn abs(self) -> Self {
        F(self.0.abs())
    }
    fn sqrt(self) -> Self {
        F(self.0.sqrt())
    }
    fn acos(self) -> Self {
        F(self.0.acos())
    }
    fn atan(self) -> Self {
        F(self.0.atan())
    }
    fn atan2(self, x: Self) -> Self {
        F(self.0.atan2(x.0))
    }
    fn sin(self) -> Self {
        F(self.0.sin())
    }
    fn cos(self) -> Self {
        F(self.0.cos())
    }
    fn ceil(self) -> Self {
        F(self.0.ceil())
    }
    fn lt(self, other: Self) -> bool {
        self.0 < other.0
    }
    fn lte(self, other: Self) -> bool {
        self.0 <= other.0
    }
    fn to_usize(self) -> Option<usize> {
        num_traits::ToPrimitive::to_usize(&self.0)
    }
    fn from_usize(n: usize) -> Option<Self> {
        let v: Option<f64> = num_traits::NumCast::from(n);
        v.map(F)
    }
    fn zero() -> Self {
        F(0.0)
    }
    fn one() -> Self {
        F(1.0)
    }
    fn two() -> Self {
        F(2.0)
    }
    fn four() -> Self {
        F(4.0)
    }
    fn pi() -> Self {
        F(std::f64::consts::PI)
    }
    fn fuzzy_epsilon() -> Self {
        F(1e-8)
    }
    fn max_value() -> Self {
        F(f64::MAX)
    }
}

fn feq(a: f64, b: f64) -> bool {
    (a - b).abs() < EPS
}

fn vertex_feq(v: PlineVertex<F>, x: f64, y: f64, bulge: f64) -> bool {
    feq(v.x.0, x) && feq(v.y.0, y) && feq(v.bulge.0, bulge)
}

fn collect_segments(polyline: &Polyline<F>) -> Vec<(PlineVertex<F>, PlineVertex<F>)> {
    let mut iter = polyline.iter_segments();
    let mut out = Vec::new();
    while let Some(pair) = iter.next() {
        out.push(pair);
    }
    out
}

fn collect_segment_indexes(polyline: &Polyline<F>) -> Vec<(usize, usize)> {
    let mut iter = polyline.iter_segment_indexes();
    let mut out = Vec::new();
    while let Some(pair) = iter.next() {
        out.push(pair);
    }
    out
}

#[test]
fn iter_segments() {
    let mut polyline: Polyline<F> = Polyline::new();
    assert_eq!(polyline.iter_segments().size_hint(), (0, Some(0)));
    assert_eq!(collect_segments(&polyline).len(), 0);

    polyline.add(F(1.0), F(2.0), F(0.3));
    assert_eq!(polyline.iter_segments().size_hint(), (0, Some(0)));
    assert_eq!(collect_segments(&polyline).len(), 0);

    polyline.add(F(4.0), F(5.0), F(0.6));
    assert_eq!(polyline.iter_segments().size_hint(), (1, Some(1)));
    let one_seg = collect_segments(&polyline);
    assert_eq!(one_seg.len(), 1);
    assert!(vertex_feq(one_seg[0].0, 1.0, 2.0, 0.3));
    assert!(vertex_feq(one_seg[0].1, 4.0, 5.0, 0.6));

    polyline.set_is_closed(true);
    assert_eq!(polyline.iter_segments().size_hint(), (2, Some(2)));
    let two_seg = collect_segments(&polyline);
    assert_eq!(two_seg.len(), 2);
    assert!(vertex_feq(two_seg[0].0, 4.0, 5.0, 0.6));
    assert!(vertex_feq(two_seg[0].1, 1.0, 2.0, 0.3));
    assert!(vertex_feq(two_seg[1].0, 1.0, 2.0, 0.3));
    assert!(vertex_feq(two_seg[1].1, 4.0, 5.0, 0.6));

    polyline.add(F(0.5), F(0.5), F(0.5));
    assert_eq!(polyline.iter_segments().size_hint(), (3, Some(3)));
    let three_seg = collect_segments(&polyline);
    assert!(vertex_feq(three_seg[0].0, 0.5, 0.5, 0.5));
    assert!(vertex_feq(three_seg[0].1, 1.0, 2.0, 0.3));
    assert!(vertex_feq(three_seg[1].0, 1.0, 2.0, 0.3));
    assert!(vertex_feq(three_seg[1].1, 4.0, 5.0, 0.6));
    assert!(vertex_feq(three_seg[2].0, 4.0, 5.0, 0.6));
    assert!(vertex_feq(three_seg[2].1, 0.5, 0.5, 0.5));

    polyline.set_is_closed(false);
    assert_eq!(polyline.iter_segments().size_hint(), (2, Some(2)));
    let two_seg_open = collect_segments(&polyline);
    assert!(vertex_feq(two_seg_open[0].0, 1.0, 2.0, 0.3));
    assert!(vertex_feq(two_seg_open[0].1, 4.0, 5.0, 0.6));
    assert!(vertex_feq(two_seg_open[1].0, 4.0, 5.0, 0.6));
    assert!(vertex_feq(two_seg_open[1].1, 0.5, 0.5, 0.5));
}

#[test]
fn iter_segment_indexes() {
    let mut polyline: Polyline<F> = Polyline::new();
    assert_eq!(polyline.iter_segment_indexes().size_hint(), (0, Some(0)));
    assert_eq!(collect_segment_indexes(&polyline).len(), 0);

    polyline.add(F(1.0), F(2.0), F(0.3));
    assert_eq!(polyline.iter_segment_indexes().size_hint(), (0, Some(0)));
    assert_eq!(collect_segment_indexes(&polyline).len(), 0);

    polyline.add(F(4.0), F(5.0), F(0.6));
    assert_eq!(polyline.iter_segment_indexes().size_hint(), (1, Some(1)));
    let one_seg = collect_segment_indexes(&polyline);
    assert_eq!(one_seg, vec![(0, 1)]);

    polyline.set_is_closed(true);
    assert_eq!(polyline.iter_segment_indexes().size_hint(), (2, Some(2)));
    let two_seg = collect_segment_indexes(&polyline);
    assert_eq!(two_seg, vec![(1, 0), (0, 1)]);

    polyline.add(F(0.5), F(0.5), F(0.5));
    assert_eq!(polyline.iter_segment_indexes().size_hint(), (3, Some(3)));
    let three_seg = collect_segment_indexes(&polyline);
    assert_eq!(three_seg, vec![(2, 0), (0, 1), (1, 2)]);

    polyline.set_is_closed(false);
    assert_eq!(polyline.iter_segment_indexes().size_hint(), (2, Some(2)));
    let two_seg_open = collect_segment_indexes(&polyline);
    assert_eq!(two_seg_open, vec![(0, 1), (1, 2)]);
}

#[test]
fn invert_direction() {
    let mut polyline: Polyline<F> = Polyline::new_closed();
    polyline.add(F(0.0), F(0.0), F(0.1));
    polyline.add(F(2.0), F(0.0), F(0.2));
    polyline.add(F(2.0), F(2.0), F(0.3));
    polyline.add(F(0.0), F(2.0), F(0.4));

    polyline.invert_direction();

    assert!(vertex_feq(polyline.at(0), 0.0, 2.0, -0.3));
    assert!(vertex_feq(polyline.at(1), 2.0, 2.0, -0.2));
    assert!(vertex_feq(polyline.at(2), 2.0, 0.0, -0.1));
    assert!(vertex_feq(polyline.at(3), 0.0, 0.0, -0.4));
}

#[test]
fn area() {
    {
        let mut circle: Polyline<F> = Polyline::new_closed();
        circle.add(F(0.0), F(0.0), F(1.0));
        circle.add(F(2.0), F(0.0), F(1.0));
        assert!(feq(circle.area().0, PI));
        circle.invert_direction();
        assert!(feq(circle.area().0, -PI));
    }

    {
        let mut half_circle: Polyline<F> = Polyline::new_closed();
        half_circle.add(F(0.0), F(0.0), F(-1.0));
        half_circle.add(F(2.0), F(0.0), F(0.0));
        assert!(feq(half_circle.area().0, -0.5 * PI));
        half_circle.invert_direction();
        assert!(feq(half_circle.area().0, 0.5 * PI));
    }

    {
        let mut square: Polyline<F> = Polyline::new_closed();
        square.add(F(0.0), F(0.0), F(0.0));
        square.add(F(2.0), F(0.0), F(0.0));
        square.add(F(2.0), F(2.0), F(0.0));
        square.add(F(0.0), F(2.0), F(0.0));
        assert!(feq(square.area().0, 4.0));
        square.invert_direction();
        assert!(feq(square.area().0, -4.0));
    }

    {
        let mut open_polyline: Polyline<F> = Polyline::new();
        open_polyline.add(F(0.0), F(0.0), F(0.0));
        open_polyline.add(F(2.0), F(0.0), F(0.0));
        open_polyline.add(F(2.0), F(2.0), F(0.0));
        open_polyline.add(F(0.0), F(2.0), F(0.0));
        assert!(feq(open_polyline.area().0, 0.0));
        open_polyline.invert_direction();
        assert!(feq(open_polyline.area().0, 0.0));
    }

    {
        let empty_open_polyline: Polyline<F> = Polyline::new();
        assert!(feq(empty_open_polyline.area().0, 0.0));
    }

    {
        let empty_closed_polyline: Polyline<F> = Polyline::new_closed();
        assert!(feq(empty_closed_polyline.area().0, 0.0));
    }

    {
        let mut one_vertex_open_polyline: Polyline<F> = Polyline::new();
        one_vertex_open_polyline.add(F(1.0), F(1.0), F(0.0));
        assert!(feq(one_vertex_open_polyline.area().0, 0.0));
    }

    {
        let mut one_vertex_closed_polyline: Polyline<F> = Polyline::new_closed();
        one_vertex_closed_polyline.add(F(1.0), F(1.0), F(0.0));
        assert!(feq(one_vertex_closed_polyline.area().0, 0.0));
    }
}

#[test]
fn invert_direction_twice_restores_closed_polyline() {
    let mut polyline: Polyline<F> = Polyline::new_closed();
    polyline.add(F(0.0), F(0.0), F(0.1));
    polyline.add(F(2.0), F(0.0), F(0.2));
    polyline.add(F(2.0), F(2.0), F(-0.3));
    polyline.add(F(0.0), F(2.0), F(0.4));
    let before: Vec<PlineVertex<F>> = polyline.iter();

    polyline.invert_direction();
    polyline.invert_direction();

    let after: Vec<PlineVertex<F>> = polyline.iter();
    assert_eq!(before.len(), after.len());
    for k in 0..before.len() {
        assert_eq!(before[k].x.0, after[k].x.0);
        assert_eq!(before[k].y.0, after[k].y.0);
        assert_eq!(before[k].bulge.0, after[k].bulge.0);
    }
}

#[test]
fn circle_polyline_lengths() {
    let mut polyline: Polyline<F> = Polyline::new();
    polyline.add(F(0.0), F(0.0), F(1.0));
    polyline.add(F(2.0), F(0.0), F(1.0));
    assert!(feq(polyline.path_length().0, PI));
    polyline.set_is_closed(true);
    assert!(feq(polyline.path_length().0, 2.0 * PI));
    assert!(feq(polyline.area().0, PI));
}

#[test]
fn winding_number_circle() {
    let mut polyline: Polyline<F> = Polyline::new_closed();
    polyline.add(F(0.0), F(0.0), F(1.0));
    polyline.add(F(2.0), F(0.0), F(1.0));
    assert_eq!(polyline.winding_number(Vector2::new(F(1.0), F(0.0))), 1);
    assert_eq!(polyline.winding_number(Vector2::new(F(0.0), F(2.0))), 0);
    polyline.invert_direction();
    assert_eq!(polyline.winding_number(Vector2::new(F(1.0), F(0.0))), -1);
}

#[test]
fn winding_number_self_intersecting() {
    let mut polyline: Polyline<F> = Polyline::new_closed();
    polyline.add(F(0.0), F(0.0), F(1.0));
    polyline.add(F(2.0), F(0.0), F(1.0));
    polyline.add(F(0.0), F(0.0), F(1.0));
    polyline.add(F(4.0), F(0.0), F(1.0));
    assert_eq!(polyline.winding_number(Vector2::new(F(1.0), F(0.0))), 2);
    assert_eq!(polyline.winding_number(Vector2::new(F(-1.0), F(0.0))), 0);
    polyline.invert_direction();
    assert_eq!(polyline.winding_number(Vector2::new(F(1.0), F(0.0))), -2);
}

#[test]
fn winding_number_open_is_zero() {
    let mut polyline: Polyline<F> = Polyline::new();
    polyline.add(F(0.0), F(0.0), F(1.0));
    polyline.add(F(2.0), F(0.0), F(1.0));
    assert_eq!(polyline.winding_number(Vector2::new(F(1.0), F(0.0))), 0);
}

#[test]
fn winding_number_square() {
    let mut square: Polyline<F> = Polyline::new_closed();
    square.add(F(0.0), F(0.0), F(0.0));
    square.add(F(2.0), F(0.0), F(0.0));
    square.add(F(2.0), F(2.0), F(0.0));
    square.add(F(0.0), F(2.0), F(0.0));
    assert_eq!(square.winding_number(Vector2::new(F(1.0), F(1.0))), 1);
    assert_eq!(square.winding_number(Vector2::new(F(3.0), F(1.0))), 0);
    square.invert_direction();
    assert_eq!(square.winding_number(Vector2::new(F(1.0), F(1.0))), -1);
}

#[test]
fn closest_point_single_vertex() {
    let mut polyline: Polyline<F> = Polyline::new();
    assert!(polyline.closest_point(Vector2::new(F(0.0), F(0.0))).is_none());
    polyline.add(F(1.0), F(1.0), F(1.0));
    let result: ClosestPointResult<F> =
        polyline.closest_point(Vector2::new(F(1.0), F(0.0))).unwrap();
    assert_eq!(result.seg_start_index, 0);
    assert!(feq(result.seg_point.x.0, 1.0));
    assert!(feq(result.seg_point.y.0, 1.0));
    assert!(feq(result.distance.0, 1.0));
}

#[test]
fn closest_point_on_square() {
    let mut square: Polyline<F> = Polyline::new_closed();
    square.add(F(0.0), F(0.0), F(0.0));
    square.add(F(2.0), F(0.0), F(0.0));
    square.add(F(2.0), F(2.0), F(0.0));
    square.add(F(0.0), F(2.0), F(0.0));
    // nearest to a point right of the square is its right edge
    let result = square.closest_point(Vector2::new(F(3.0), F(1.0))).unwrap();
    assert_eq!(result.seg_start_index, 1);
    assert!(feq(result.seg_point.x.0, 2.0));
    assert!(feq(result.seg_point.y.0, 1.0));
    assert!(feq(result.distance.0, 1.0));
}

#[test]
fn extents_empty_and_single_vertex() {
    let mut polyline: Polyline<F> = Polyline::new();
    assert!(polyline.extents().is_none());
    polyline.add(F(1.0), F(1.0), F(1.0));
    let pt_extents = polyline.extents().unwrap();
    assert!(feq(pt_extents.min_x.0, 1.0));
    assert!(feq(pt_extents.min_y.0, 1.0));
    assert!(feq(pt_extents.max_x.0, 1.0));
    assert!(feq(pt_extents.max_y.0, 1.0));
}

#[test]
fn extents_with_arcs() {
    let mut polyline: Polyline<F> = Polyline::new();
    polyline.add(F(1.0), F(1.0), F(1.0));
    polyline.add(F(3.0), F(1.0), F(1.0));
    let extents = polyline.extents().unwrap();
    assert!(feq(extents.min_x.0, 1.0));
    assert!(feq(extents.min_y.0, 0.0));
    assert!(feq(extents.max_x.0, 3.0));
    assert!(feq(extents.max_y.0, 1.0));

    polyline.set_is_closed(true);
    let extents = polyline.extents().unwrap();
    assert!(feq(extents.min_x.0, 1.0));
    assert!(feq(extents.min_y.0, 0.0));
    assert!(feq(extents.max_x.0, 3.0));
    assert!(feq(extents.max_y.0, 2.0));
}

#[test]
fn scale_and_translate() {
    let mut polyline: Polyline<F> = Polyline::new();
    polyline.add(F(2.0), F(2.0), F(0.5));
    polyline.add(F(4.0), F(4.0), F(1.0));
    polyline.scale(F(2.0));
    assert!(vertex_feq(polyline.at(0), 4.0, 4.0, 0.5));
    assert!(vertex_feq(polyline.at(1), 8.0, 8.0, 1.0));

    polyline.translate(F(-3.0), F(1.0));
    assert!(vertex_feq(polyline.at(0), 1.0, 5.0, 0.5));
    assert!(vertex_feq(polyline.at(1), 5.0, 9.0, 1.0));
}

#[test]
fn add_or_replace_merges_near_vertexes() {
    let mut polyline: Polyline<F> = Polyline::new();
    polyline.add_or_replace(F(1.0), F(1.0), F(0.25), F(1e-5));
    assert_eq!(polyline.len(), 1);
    // position within tolerance of the last vertex: only the bulge changes
    polyline.add_or_replace(F(1.0 + 1e-7), F(1.0), F(0.5), F(1e-5));
    assert_eq!(polyline.len(), 1);
    assert!(feq(polyline.at(0).x.0, 1.0));
    assert!(feq(polyline.at(0).bulge.0, 0.5));
    // position farther than the tolerance: appended
    polyline.add_or_replace(F(2.0), F(1.0), F(0.0), F(1e-5));
    assert_eq!(polyline.len(), 2);
    assert!(vertex_feq(polyline.at(1), 2.0, 1.0, 0.0));
}

#[test]
fn mutators_and_accessors() {
    let mut polyline: Polyline<F> = Polyline::new();
    assert!(!polyline.is_closed());
    polyline.add_vertex(PlineVertex::new(F(0.0), F(0.0), F(0.0)));
    polyline.add_from_array([F(1.0), F(2.0), F(0.3)]);
    polyline.add(F(5.0), F(5.0), F(0.0));
    assert_eq!(polyline.len(), 3);
    assert_eq!(polyline.next_wrapping_index(2), 0);
    assert_eq!(polyline.next_wrapping_index(0), 1);
    assert_eq!(polyline.prev_wrapping_index(0), 2);
    assert_eq!(polyline.prev_wrapping_index(2), 1);
    assert!(vertex_feq(polyline.last().unwrap(), 5.0, 5.0, 0.0));
    polyline.set_vertex(1, F(9.0), F(9.0), F(0.9));
    assert!(vertex_feq(polyline.at(1), 9.0, 9.0, 0.9));
    polyline.remove(1);
    assert_eq!(polyline.len(), 2);
    assert!(vertex_feq(polyline.at(1), 5.0, 5.0, 0.0));
    polyline.remove_last();
    assert_eq!(polyline.len(), 1);

    let mut other: Polyline<F> = Polyline::new();
    other.add(F(7.0), F(8.0), F(0.0));
    polyline.extend_vertexes(&other);
    assert_eq!(polyline.len(), 2);
    assert!(vertex_feq(polyline.at(1), 7.0, 8.0, 0.0));
    assert!(polyline.fuzzy_eq(&polyline.clone()));

    polyline.clear();
    assert_eq!(polyline.len(), 0);

    let reserved: Polyline<F> = Polyline::with_capacity(16);
    assert_eq!(reserved.len(), 0);
}

#[test]
fn visit_segments_early_stop() {
    let mut polyline: Polyline<F> = Polyline::new_closed();
    polyline.add(F(0.0), F(0.0), F(0.0));
    polyline.add(F(2.0), F(0.0), F(0.0));
    polyline.add(F(2.0), F(2.0), F(0.0));

    let visited_all = std::cell::Cell::new(0usize);
    let count_all = |_v1: PlineVertex<F>, _v2: PlineVertex<F>| -> bool {
        visited_all.set(visited_all.get() + 1);
        true
    };
    polyline.visit_segments(&count_all);
    assert_eq!(visited_all.get(), 3);

    let visited_some = std::cell::Cell::new(0usize);
    let stop_after_two = |_v1: PlineVertex<F>, _v2: PlineVertex<F>| -> bool {
        visited_some.set(visited_some.get() + 1);
        visited_some.get() < 2
    };
    polyline.visit_segments(&stop_after_two);
    assert_eq!(visited_some.get(), 2);
}

#[test]
fn arcs_to_approx_lines_circle() {
    let mut polyline: Polyline<F> = Polyline::new_closed();
    polyline.add(F(0.0), F(0.0), F(1.0));
    polyline.add(F(2.0), F(0.0), F(1.0));
    let approx = polyline.arcs_to_approx_lines(F(0.05)).unwrap();
    assert!(approx.is_closed());
    assert!(approx.len() >= 8);
    // every generated point lies on the circle of radius 1 around (1, 0)
    for v in approx.iter() {
        let dx = v.x.0 - 1.0;
        let dy = v.y.0;
        assert!(feq((dx * dx + dy * dy).sqrt(), 1.0));
        assert!(feq(v.bulge.0, 0.0));
    }
    // and the chords stay within the error distance of the arc
    let mut iter = approx.iter_segments();
    while let Some((v1, v2)) = iter.next() {
        let mx = (v1.x.0 + v2.x.0) / 2.0 - 1.0;
        let my = (v1.y.0 + v2.y.0) / 2.0;
        let mid_dist = (mx * mx + my * my).sqrt();
        assert!(1.0 - mid_dist <= 0.05 + EPS);
    }
}

#[test]
fn arcs_to_approx_lines_open_keeps_last_vertex() {
    let mut polyline: Polyline<F> = Polyline::new();
    polyline.add(F(0.0), F(0.0), F(1.0));
    polyline.add(F(2.0), F(0.0), F(0.0));
    let approx = polyline.arcs_to_approx_lines(F(0.1)).unwrap();
    assert!(!approx.is_closed());
    let last = approx.last().unwrap();
    assert!(vertex_feq(last, 2.0, 0.0, 0.0));
    assert!(vertex_feq(approx.at(0), 0.0, 0.0, 0.0));
}

#[test]
fn arcs_to_approx_lines_unrepresentable_count_fails() {
    let mut polyline: Polyline<F> = Polyline::new_closed();
    polyline.add(F(0.0), F(0.0), F(1.0));
    polyline.add(F(2.0), F(0.0), F(1.0));
    // a zero error distance asks for infinitely many chords: the chord
    // count is not representable and the conversion reports failure
    assert!(polyline.arcs_to_approx_lines(F(0.0)).is_none());
}

#[test]
fn arcs_to_approx_lines_degenerate_radius_collapses() {
    let mut polyline: Polyline<F> = Polyline::new();
    polyline.add(F(0.0), F(0.0), F(1.0));
    polyline.add(F(1e-12), F(0.0), F(0.0));
    let approx = polyline.arcs_to_approx_lines(F(0.5)).unwrap();
    // radius below the error distance: the arc collapses to its start point
    assert_eq!(approx.len(), 2);
    assert!(vertex_feq(approx.at(0), 0.0, 0.0, 0.0));
}

#[test]
fn spatial_index_query() {
    let mut square: Polyline<F> = Polyline::new_closed();
    square.add(F(0.0), F(0.0), F(0.0));
    square.add(F(2.0), F(0.0), F(0.0));
    square.add(F(2.0), F(2.0), F(0.0));
    square.add(F(0.0), F(2.0), F(0.0));
    let index = square.create_approx_spatial_index().unwrap();
    assert_eq!(index.len(), 4);
    // the traversal starts with the wraparound segment from (0,2) to (0,0):
    // a query box around the origin corner touches it and the bottom edge
    let hits = index.query(F(-0.5), F(-0.5), F(0.5), F(0.5));
    assert_eq!(hits, vec![0, 1]);

    let mut single: Polyline<F> = Polyline::new();
    single.add(F(0.0), F(0.0), F(0.0));
    assert!(single.create_approx_spatial_index().is_none());
}

#[test]
fn fuzzy_eq_compares_vertexes() {
    let mut a: Polyline<F> = Polyline::new();
    a.add(F(1.0), F(2.0), F(0.5));
    let mut b: Polyline<F> = Polyline::new();
    b.add(F(1.0 + 1e-10), F(2.0), F(0.5));
    assert!(a.fuzzy_eq(&b));
    assert!(a.fuzzy_eq_eps(&b, F(1e-6)));
    let mut c: Polyline<F> = Polyline::new();
    c.add(F(1.5), F(2.0), F(0.5));
    assert!(!a.fuzzy_eq(&c));
}

#[test]
fn extents_and_area_clockwise_circle() {
    let mut circle: Polyline<F> = Polyline::new_closed();
    circle.add(F(0.0), F(0.0), F(-1.0));
    circle.add(F(2.0), F(0.0), F(-1.0));
    assert!(feq(circle.area().0, -PI));
    let extents = circle.extents().unwrap();
    assert!(feq(extents.min_x.0, 0.0));
    assert!(feq(extents.min_y.0, -1.0));
    assert!(feq(extents.max_x.0, 2.0));
    assert!(feq(extents.max_y.0, 1.0));
}

#[test]
fn closest_point_on_arc_segment() {
    // a single counter clockwise half circle from (0,0) to (2,0), bulging
    // down through (1,-1)
    let mut polyline: Polyline<F> = Polyline::new();
    polyline.add(F(0.0), F(0.0), F(1.0));
    polyline.add(F(2.0), F(0.0), F(0.0));
    let result = polyline.closest_point(Vector2::new(F(1.0), F(-2.0))).unwrap();
    assert_eq!(result.seg_start_index, 0);
    assert!(feq(result.seg_point.x.0, 1.0));
    assert!(feq(result.seg_point.y.0, -1.0));
    assert!(feq(result.distance.0, 1.0));
    // a query point beyond the arc's sweep snaps to the nearer endpoint
    let result = polyline.closest_point(Vector2::new(F(-0.5), F(0.5))).unwrap();
    assert_eq!(result.seg_start_index, 0);
    assert!(feq(result.seg_point.x.0, 0.0));
    assert!(feq(result.seg_point.y.0, 0.0));
}
