use vstd::prelude::*;

use crate::pline_vertex::PlineVertex;
use crate::scalar::Real;
use crate::scalar::spec_fuzzy_eq_eps;

verus! {

/// A polyline path: an ordered sequence of vertexes and an open/closed flag.
///
/// The vertex order is the traversal order of the path. With fewer than two
/// vertexes the path has no segments at all; an open path of `n >= 2`
/// vertexes has the `n - 1` forward segments, and a closed path additionally
/// has the wraparound segment from the last vertex back to the first, whose
/// bulge is the last vertex's bulge.
#[derive(Debug, Clone)]
pub struct Polyline<T> {
    vertex_data: Vec<PlineVertex<T>>,
    is_closed: bool,
}

impl<T> View for Polyline<T> {
    type V = Seq<PlineVertex<T>>;

    closed spec fn view(&self) -> Seq<PlineVertex<T>> {
        self.vertex_data@
    }
}

/// The vertex sequence of a polyline after scaling every position by
/// `scale_factor`, bulges untouched.
pub open spec fn spec_scaled<T: Real>(s: Seq<PlineVertex<T>>, scale_factor: T) -> Seq<
    PlineVertex<T>,
> {
    Seq::new(
        s.len(),
        |i: int|
            (PlineVertex {
                x: s[i].x.spec_mul(scale_factor),
                y: s[i].y.spec_mul(scale_factor),
                bulge: s[i].bulge,
            }),
    )
}

/// The vertex sequence of a polyline after translating every position by
/// `(x_offset, y_offset)`, bulges untouched.
pub open spec fn spec_translated<T: Real>(
    s: Seq<PlineVertex<T>>,
    x_offset: T,
    y_offset: T,
) -> Seq<PlineVertex<T>> {
    Seq::new(
        s.len(),
        |i: int|
            (PlineVertex {
                x: s[i].x.spec_add(x_offset),
                y: s[i].y.spec_add(y_offset),
                bulge: s[i].bulge,
            }),
    )
}

/// The vertex sequence of a polyline after inverting its direction: the
/// vertex order is reversed and each bulge moves one position back along the
/// new order with its sign flipped, so that every segment keeps its shape but
/// is traversed the other way. With fewer than two vertexes the sequence is
/// unchanged. For an open polyline the final vertex's bulge (which governs no
/// segment) is the original first vertex's bulge unaltered.
pub open spec fn spec_inverted<T: Real>(s: Seq<PlineVertex<T>>, is_closed: bool) -> Seq<
    PlineVertex<T>,
> {
    if s.len() < 2 {
        s
    } else {
        let n = s.len() as int;
        Seq::new(
            s.len(),
            |k: int|
                (PlineVertex {
                    x: s[n - 1 - k].x,
                    y: s[n - 1 - k].y,
                    bulge: if k < n - 1 {
                        s[n - 2 - k].bulge.spec_neg()
                    } else if is_closed {
                        s[n - 1].bulge.spec_neg()
                    } else {
                        s[0].bulge
                    },
                }),
        )
    }
}

/// Whether the first `count` vertexes of `a` and `b` agree in position and
/// bulge within the tolerance `eps`.
pub open spec fn spec_prefix_fuzzy_eq<T: Real>(
    a: Seq<PlineVertex<T>>,
    b: Seq<PlineVertex<T>>,
    count: int,
    eps: T,
) -> bool {
    forall|i: int|
        0 <= i < count ==> {
            let va = #[trigger] a[i];
            let vb = b[i];
            spec_fuzzy_eq_eps(va.x, vb.x, eps) && spec_fuzzy_eq_eps(va.y, vb.y, eps)
                && spec_fuzzy_eq_eps(va.bulge, vb.bulge, eps)
        }
}

impl<T: Real> Polyline<T> {
    /// Whether the polyline is closed, as seen by specifications.
    pub closed spec fn spec_is_closed(&self) -> bool {
        self.is_closed
    }

    /// Create a new empty polyline with the closed flag off.
    pub fn new() -> (r: Self)
        ensures
            r@ == Seq::<PlineVertex<T>>::empty(),
            !r.spec_is_closed(),
    {
        Polyline { vertex_data: Vec::new(), is_closed: false }
    }

    /// Create a new empty polyline with the closed flag on.
    pub fn new_closed() -> (r: Self)
        ensures
            r@ == Seq::<PlineVertex<T>>::empty(),
            r.spec_is_closed(),
    {
        Polyline { vertex_data: Vec::new(), is_closed: true }
    }

    /// Create a new empty open polyline with some reserved capacity.
    pub fn with_capacity(capacity: usize) -> (r: Self)
        ensures
            r@ == Seq::<PlineVertex<T>>::empty(),
            !r.spec_is_closed(),
    {
        Polyline { vertex_data: Vec::with_capacity(capacity), is_closed: false }
    }

    /// The number of vertexes currently in the polyline.
    pub fn len(&self) -> (r: usize)
        ensures
            r == self@.len(),
    {
        self.vertex_data.len()
    }

    /// Reserve capacity for at least `additional` more vertexes.
    pub fn reserve(&mut self, additional: usize)
        ensures
            final(self)@ == old(self)@,
            final(self).spec_is_closed() == old(self).spec_is_closed(),
    {
        self.vertex_data.reserve(additional);
    }

    /// Append a vertex given by its `x`, `y` and `bulge` values.
    pub fn add(&mut self, x: T, y: T, bulge: T)
        ensures
            final(self)@ == old(self)@.push(PlineVertex { x, y, bulge }),
            final(self).spec_is_closed() == old(self).spec_is_closed(),
    {
        self.vertex_data.push(PlineVertex { x, y, bulge });
    }

    /// Append a vertex given as array data (index 0 = x, 1 = y, 2 = bulge).
    pub fn add_from_array(&mut self, data: [T; 3])
        ensures
            final(self)@ == old(self)@.push(
                PlineVertex { x: data[0], y: data[1], bulge: data[2] },
            ),
            final(self).spec_is_closed() == old(self).spec_is_closed(),
    {
        self.add(data[0], data[1], data[2]);
    }

    /// Append a vertex, unless its position is within `pos_equal_eps` of the
    /// last vertex's position: then only overwrite the last vertex's bulge
    /// with the bulge given.
    pub fn add_or_replace(&mut self, x: T, y: T, bulge: T, pos_equal_eps: T)
        ensures
            final(self).spec_is_closed() == old(self).spec_is_closed(),
            ({
                let s = old(self)@;
                if s.len() > 0 && spec_fuzzy_eq_eps(s.last().x, x, pos_equal_eps)
                    && spec_fuzzy_eq_eps(s.last().y, y, pos_equal_eps) {
                    final(self)@ == s.update(
                        s.len() - 1,
                        (PlineVertex { x: s.last().x, y: s.last().y, bulge }),
                    )
                } else {
                    final(self)@ == s.push(PlineVertex { x, y, bulge })
                }
            }),
    {
        let ln = self.vertex_data.len();
        if ln == 0 {
            self.add(x, y, bulge);
            return ;
        }
        let last_vert = self.vertex_data[ln - 1];
        if crate::scalar::fuzzy_eq_eps(last_vert.x, x, pos_equal_eps) && crate::scalar::fuzzy_eq_eps(
            last_vert.y,
            y,
            pos_equal_eps,
        ) {
            self.vertex_data[ln - 1] = PlineVertex { x: last_vert.x, y: last_vert.y, bulge };
            return ;
        }
        self.add(x, y, bulge);
    }

    /// Append `vertex`, unless its position is within `pos_equal_eps` of the
    /// last vertex's position: then only overwrite the last vertex's bulge
    /// with `vertex`'s bulge.
    pub fn add_or_replace_vertex(&mut self, vertex: PlineVertex<T>, pos_equal_eps: T)
        ensures
            final(self).spec_is_closed() == old(self).spec_is_closed(),
            ({
                let s = old(self)@;
                if s.len() > 0 && spec_fuzzy_eq_eps(s.last().x, vertex.x, pos_equal_eps)
                    && spec_fuzzy_eq_eps(s.last().y, vertex.y, pos_equal_eps) {
                    final(self)@ == s.update(
                        s.len() - 1,
                        (PlineVertex { x: s.last().x, y: s.last().y, bulge: vertex.bulge }),
                    )
                } else {
                    final(self)@ == s.push(vertex)
                }
            }),
    {
        self.add_or_replace(vertex.x, vertex.y, vertex.bulge, pos_equal_eps)
    }

    /// The next vertex index after `i`, wrapping to 0 past the end.
    pub fn next_wrapping_index(&self, i: usize) -> (r: usize)
        requires
            i < self@.len(),
        ensures
            r == if i + 1 >= self@.len() {
                0int
            } else {
                i + 1
            },
    {
        let ln = self.vertex_data.len();
        let next = i + 1;
        if next >= ln {
            0
        } else {
            next
        }
    }

    /// The previous vertex index before `i`, wrapping to the last index
    /// below 0.
    pub fn prev_wrapping_index(&self, i: usize) -> (r: usize)
        requires
            i < self@.len(),
        ensures
            r == if i == 0 {
                self@.len() - 1
            } else {
                i - 1
            },
    {
        if i == 0 {
            self.vertex_data.len() - 1
        } else {
            i - 1
        }
    }

    /// Append a vertex.
    pub fn add_vertex(&mut self, vertex: PlineVertex<T>)
        ensures
            final(self)@ == old(self)@.push(vertex),
            final(self).spec_is_closed() == old(self).spec_is_closed(),
    {
        self.vertex_data.push(vertex);
    }

    /// Copy all vertexes from `other` to the end of this polyline.
    pub fn extend_vertexes(&mut self, other: &Polyline<T>)
        ensures
            final(self)@ == old(self)@ + other@,
            final(self).spec_is_closed() == old(self).spec_is_closed(),
    {
        let mut i: usize = 0;
        while i < other.vertex_data.len()
            invariant
                i <= other@.len(),
                self@ == old(self)@ + other@.take(i as int),
                self.spec_is_closed() == old(self).spec_is_closed(),
            decreases other@.len() - i,
        {
            self.vertex_data.push(other.vertex_data[i]);
            proof {
                assert(other@.take(i + 1) =~= other@.take(i as int).push(other@[i as int]));
            }
            i = i + 1;
        }
        proof {
            assert(other@.take(other@.len() as int) =~= other@);
        }
    }

    /// Remove the vertex at `index`, shifting the ones after it down.
    pub fn remove(&mut self, index: usize)
        requires
            index < old(self)@.len(),
        ensures
            final(self)@ == old(self)@.remove(index as int),
            final(self).spec_is_closed() == old(self).spec_is_closed(),
    {
        self.vertex_data.remove(index);
    }

    /// Remove the last vertex.
    pub fn remove_last(&mut self)
        requires
            old(self)@.len() > 0,
        ensures
            final(self)@ == old(self)@.drop_last(),
            final(self).spec_is_closed() == old(self).spec_is_closed(),
    {
        self.remove(self.vertex_data.len() - 1);
        proof {
            assert(old(self)@.remove(old(self)@.len() - 1) =~= old(self)@.drop_last());
        }
    }

    /// Remove all vertexes.
    pub fn clear(&mut self)
        ensures
            final(self)@ == Seq::<PlineVertex<T>>::empty(),
            final(self).spec_is_closed() == old(self).spec_is_closed(),
    {
        self.vertex_data.clear();
    }

    /// Whether the polyline is closed.
    pub fn is_closed(&self) -> (r: bool)
        ensures
            r == self.spec_is_closed(),
    {
        self.is_closed
    }

    /// Set whether the polyline is closed.
    pub fn set_is_closed(&mut self, is_closed: bool)
        ensures
            final(self)@ == old(self)@,
            final(self).spec_is_closed() == is_closed,
    {
        self.is_closed = is_closed;
    }

    /// The last vertex, if any.
    pub fn last(&self) -> (r: Option<PlineVertex<T>>)
        ensures
            r == if self@.len() == 0 {
                Option::<PlineVertex<T>>::None
            } else {
                Option::Some(self@.last())
            },
    {
        if self.vertex_data.len() == 0 {
            Option::None
        } else {
            Option::Some(self.vertex_data[self.vertex_data.len() - 1])
        }
    }

    /// The vertex at `index`.
    pub fn at(&self, index: usize) -> (r: PlineVertex<T>)
        requires
            index < self@.len(),
        ensures
            r == self@[index as int],
    {
        self.vertex_data[index]
    }

    /// Overwrite the vertex at `index` with the values given.
    pub fn set_vertex(&mut self, index: usize, x: T, y: T, bulge: T)
        requires
            index < old(self)@.len(),
        ensures
            final(self)@ == old(self)@.update(index as int, (PlineVertex { x, y, bulge })),
            final(self).spec_is_closed() == old(self).spec_is_closed(),
    {
        self.vertex_data[index] = PlineVertex { x, y, bulge };
    }

    /// Compare with `other` vertex by vertex over their common prefix, within
    /// the tolerance `fuzzy_epsilon` given.
    pub fn fuzzy_eq_eps(&self, other: &Self, fuzzy_epsilon: T) -> (r: bool)
        ensures
            r == spec_prefix_fuzzy_eq(
                self@,
                other@,
                crate::scalar::spec_min_int(self@.len() as int, other@.len() as int),
                fuzzy_epsilon,
            ),
    {
        let n = if self.vertex_data.len() < other.vertex_data.len() {
            self.vertex_data.len()
        } else {
            other.vertex_data.len()
        };
        let mut i: usize = 0;
        while i < n
            invariant
                i <= n,
                n == crate::scalar::spec_min_int(self@.len() as int, other@.len() as int),
                spec_prefix_fuzzy_eq(self@, other@, i as int, fuzzy_epsilon),
            decreases n - i,
        {
            if !self.vertex_data[i].fuzzy_eq_eps(other.vertex_data[i], fuzzy_epsilon) {
                return false;
            }
            i = i + 1;
        }
        true
    }

    /// Compare with `other` vertex by vertex over their common prefix, within
    /// the default tolerance.
    pub fn fuzzy_eq(&self, other: &Self) -> (r: bool)
        ensures
            r == spec_prefix_fuzzy_eq(
                self@,
                other@,
                crate::scalar::spec_min_int(self@.len() as int, other@.len() as int),
                T::spec_fuzzy_epsilon(),
            ),
    {
        self.fuzzy_eq_eps(other, T::fuzzy_epsilon())
    }

    /// Invert the traversal direction of the polyline in place: the vertex
    /// order is reversed and each bulge moves one position back along the new
    /// order with its sign flipped. Does nothing with fewer than two
    /// vertexes.
    pub fn invert_direction(&mut self)
        ensures
            final(self)@ == spec_inverted(old(self)@, old(self).spec_is_closed()),
            final(self).spec_is_closed() == old(self).spec_is_closed(),
    {
        let ln = self.vertex_data.len();
        if ln < 2 {
            return ;
        }
        let ghost target = spec_inverted(self@, self.spec_is_closed());
        let mut inverted: Vec<PlineVertex<T>> = Vec::with_capacity(ln);
        let mut k: usize = 0;
        while k < ln
            invariant
                k <= ln,
                ln == self@.len(),
                2 <= ln,
                target == spec_inverted(self@, self.spec_is_closed()),
                inverted@ == target.take(k as int),
            decreases ln - k,
        {
            let src = self.vertex_data[ln - 1 - k];
            let bulge = if k < ln - 1 {
                self.vertex_data[ln - 2 - k].bulge.neg()
            } else if self.is_closed {
                self.vertex_data[ln - 1].bulge.neg()
            } else {
                self.vertex_data[0].bulge
            };
            inverted.push(PlineVertex { x: src.x, y: src.y, bulge });
            proof {
                assert(target.take(k + 1) =~= target.take(k as int).push(target[k as int]));
            }
            k = k + 1;
        }
        proof {
            assert(target.take(target.len() as int) =~= target);
        }
        self.vertex_data = inverted;
    }

    /// Uniformly scale every vertex position by `scale_factor`; bulges are
    /// dimensionless ratios and stay as they are.
    pub fn scale(&mut self, scale_factor: T)
        ensures
            final(self)@ == spec_scaled(old(self)@, scale_factor),
            final(self).spec_is_closed() == old(self).spec_is_closed(),
    {
        let ln = self.vertex_data.len();
        let mut i: usize = 0;
        while i < ln
            invariant
                i <= ln,
                ln == self@.len(),
                self@.len() == old(self)@.len(),
                self.spec_is_closed() == old(self).spec_is_closed(),
                forall|j: int| i <= j < ln ==> self@[j] == old(self)@[j],
                forall|j: int| 0 <= j < i ==> self@[j] == spec_scaled(old(self)@, scale_factor)[j],
            decreases ln - i,
        {
            let v = self.vertex_data[i];
            self.vertex_data[i] = PlineVertex {
                x: v.x.mul(scale_factor),
                y: v.y.mul(scale_factor),
                bulge: v.bulge,
            };
            i = i + 1;
        }
        proof {
            assert(self@ =~= spec_scaled(old(self)@, scale_factor));
        }
    }

    /// Translate every vertex position by `(x_offset, y_offset)`.
    pub fn translate(&mut self, x_offset: T, y_offset: T)
        ensures
            final(self)@ == spec_translated(old(self)@, x_offset, y_offset),
            final(self).spec_is_closed() == old(self).spec_is_closed(),
    {
        let ln = self.vertex_data.len();
        let mut i: usize = 0;
        while i < ln
            invariant
                i <= ln,
                ln == self@.len(),
                self@.len() == old(self)@.len(),
                self.spec_is_closed() == old(self).spec_is_closed(),
                forall|j: int| i <= j < ln ==> self@[j] == old(self)@[j],
                forall|j: int|
                    0 <= j < i ==> self@[j] == spec_translated(old(self)@, x_offset, y_offset)[j],
            decreases ln - i,
        {
            let v = self.vertex_data[i];
            self.vertex_data[i] = PlineVertex {
                x: v.x.add(x_offset),
                y: v.y.add(y_offset),
                bulge: v.bulge,
            };
            i = i + 1;
        }
        proof {
            assert(self@ =~= spec_translated(old(self)@, x_offset, y_offset));
        }
    }

    /// All vertexes of the polyline, copied in order.
    pub fn iter(&self) -> (r: Vec<PlineVertex<T>>)
        ensures
            r@ == self@,
    {
        let mut out: Vec<PlineVertex<T>> = Vec::with_capacity(self.vertex_data.len());
        let mut i: usize = 0;
        while i < self.vertex_data.len()
            invariant
                i <= self@.len(),
                out@ == self@.take(i as int),
            decreases self@.len() - i,
        {
            out.push(self.vertex_data[i]);
            proof {
                assert(self@.take(i + 1) =~= self@.take(i as int).push(self@[i as int]));
            }
            i = i + 1;
        }
        proof {
            assert(self@.take(self@.len() as int) =~= self@);
        }
        out
    }
}

/// The double involution law: inverting a polyline's direction twice gives
/// back exactly the original vertex sequence.
///
/// For an open polyline of two or more vertexes the law needs the last
/// vertex's bulge to be the negation of its predecessor's: that final bulge
/// governs no segment, and a double inversion parks the negated predecessor
/// bulge there. Closed and short polylines are restored unconditionally.
pub proof fn lemma_invert_direction_twice<T: Real>(s: Seq<PlineVertex<T>>, is_closed: bool)
    requires
        is_closed || s.len() < 2 || s.last().bulge == s[s.len() - 2].bulge.spec_neg(),
    ensures
        spec_inverted(spec_inverted(s, is_closed), is_closed) == s,
{
    if s.len() < 2 {
    } else {
        let n = s.len() as int;
        let once = spec_inverted(s, is_closed);
        let twice = spec_inverted(once, is_closed);
        assert forall|k: int| 0 <= k < n implies twice[k] == s[k] by {
            T::neg_involution(s[k].bulge);
            if k == n - 1 && !is_closed {
                T::neg_involution(s[n - 2].bulge);
            }
        }
        assert(twice =~= s);
    }
}

} // verus!
