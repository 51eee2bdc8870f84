use vstd::prelude::*;

use crate::pline_vertex::PlineVertex;
use crate::polyline::Polyline;
use crate::scalar::Real;

verus! {

// Segment traversal: the ordered sequence of segments of a polyline, as
// positional index pairs or as vertex pairs. With fewer than two vertexes
// there are no segments. An open polyline of `n` vertexes yields the forward
// pairs `(0, 1), ..., (n - 2, n - 1)`; a closed one yields the wraparound
// pair `(n - 1, 0)` first and the forward pairs after it.

/// The number of segments of a polyline with `n` vertexes.
pub open spec fn spec_seg_count(n: int, is_closed: bool) -> int {
    if n < 2 {
        0
    } else if is_closed {
        n
    } else {
        n - 1
    }
}

/// The ordered segment index pairs of a polyline with `n` vertexes:
/// the wraparound pair first when closed, then the forward pairs.
pub open spec fn spec_seg_index_pairs(n: int, is_closed: bool) -> Seq<(int, int)> {
    if n < 2 {
        Seq::empty()
    } else if is_closed {
        seq![((n - 1) as int, 0int)] + Seq::new((n - 1) as nat, |i: int| (i, i + 1))
    } else {
        Seq::new((n - 1) as nat, |i: int| (i, i + 1))
    }
}

/// The ordered segments of the vertex sequence `s`, each as the pair of its
/// start and end vertex.
pub open spec fn spec_seg_vertex_pairs<T>(s: Seq<PlineVertex<T>>, is_closed: bool) -> Seq<
    (PlineVertex<T>, PlineVertex<T>),
> {
    spec_seg_index_pairs(s.len() as int, is_closed).map_values(
        |p: (int, int)| (s[p.0], s[p.1]),
    )
}

/// Every index pair of a segment traversal addresses a vertex of the
/// polyline: both components lie below the vertex count.
pub proof fn lemma_seg_index_pairs_in_range(n: int, is_closed: bool)
    requires
        0 <= n,
    ensures
        spec_seg_index_pairs(n, is_closed).len() == spec_seg_count(n, is_closed),
        forall|k: int|
            0 <= k < spec_seg_count(n, is_closed) ==> {
                let p = #[trigger] spec_seg_index_pairs(n, is_closed)[k];
                0 <= p.0 < n && 0 <= p.1 < n
            },
{
}

/// Iterator over the segment index pairs of a polyline, in traversal order.
///
/// It is constructed from the vertex count and closed flag alone and yields
/// each pair through [`PlineSegIndexIterator::next`].
pub struct PlineSegIndexIterator {
    pos: usize,
    remaining: usize,
    is_closed_first_pass: bool,
}

impl PlineSegIndexIterator {
    /// Internal consistency of the cursor fields, keeping the index
    /// arithmetic of `next` within bounds.
    #[verifier::type_invariant]
    pub closed spec fn wf(self) -> bool {
        if self.is_closed_first_pass {
            self.pos == 1
        } else {
            self.remaining == 0 || (1 <= self.pos && self.pos + self.remaining <= usize::MAX)
        }
    }

    /// The index pairs this iterator will still yield, in order.
    pub closed spec fn remaining_pairs(self) -> Seq<(int, int)> {
        if self.remaining == 0 {
            Seq::empty()
        } else if self.is_closed_first_pass {
            seq![((self.remaining - 1) as int, 0int)] + Seq::new(
                (self.remaining - 1) as nat,
                |i: int| (i, i + 1),
            )
        } else {
            Seq::new(self.remaining as nat, |i: int| (self.pos - 1 + i, self.pos + i))
        }
    }

    /// Build an iterator over the segment index pairs of a polyline with
    /// `vertex_count` vertexes and the closed flag given.
    pub fn new(vertex_count: usize, is_closed: bool) -> (r: PlineSegIndexIterator)
        ensures
            r.remaining_pairs() == spec_seg_index_pairs(vertex_count as int, is_closed),
    {
        let remaining = if vertex_count < 2 {
            0
        } else if is_closed {
            vertex_count
        } else {
            vertex_count - 1
        };
        let r = PlineSegIndexIterator { pos: 1, remaining, is_closed_first_pass: is_closed };
        proof {
            assert(r.remaining_pairs() =~= spec_seg_index_pairs(vertex_count as int, is_closed));
        }
        r
    }

    /// Yield the next segment index pair, or nothing when the traversal is
    /// done.
    pub fn next(&mut self) -> (r: Option<(usize, usize)>)
        ensures
            old(self).remaining_pairs().len() == 0 ==> r is None && final(self).remaining_pairs()
                == old(self).remaining_pairs(),
            old(self).remaining_pairs().len() > 0 ==> {
                let p = old(self).remaining_pairs()[0];
                let rest = old(self).remaining_pairs().drop_first();
                r == Option::Some(((p.0 as usize, p.1 as usize)))
                    && final(self).remaining_pairs() == rest
            },
    {
        proof {
            use_type_invariant(&*self);
        }
        if self.remaining == 0 {
            return Option::None;
        }
        self.remaining = self.remaining - 1;
        if self.is_closed_first_pass {
            self.is_closed_first_pass = false;
            proof {
                assert(final(self).remaining_pairs() =~= old(self).remaining_pairs().drop_first());
            }
            return Option::Some((self.remaining, 0));
        }
        let pos = self.pos;
        self.pos = pos + 1;
        proof {
            assert(final(self).remaining_pairs() =~= old(self).remaining_pairs().drop_first());
        }
        Option::Some((pos - 1, pos))
    }

    /// The exact number of index pairs still to come, as a lower and upper
    /// bound.
    pub fn size_hint(&self) -> (r: (usize, Option<usize>))
        ensures
            r.0 == self.remaining_pairs().len(),
            r.1 == Option::Some((self.remaining_pairs().len() as usize)),
    {
        proof {
            use_type_invariant(self);
        }
        (self.remaining, Option::Some(self.remaining))
    }
}

/// Iterator over the segments of a borrowed polyline, in traversal order,
/// each segment as the pair of its start and end vertex.
pub struct PlineSegIterator<'a, T> {
    polyline: &'a Polyline<T>,
    pos: usize,
    remaining: usize,
    is_closed_first_pass: bool,
}

impl<'a, T> PlineSegIterator<'a, T> {
    /// Internal consistency of the cursor fields against the borrowed
    /// polyline, keeping the vertex indexing of `next` within bounds.
    #[verifier::type_invariant]
    pub closed spec fn wf(self) -> bool {
        if self.is_closed_first_pass {
            self.pos == 1 && self.remaining == self.polyline@.len() && 2 <= self.remaining
        } else {
            self.remaining == 0 || (1 <= self.pos && self.pos + self.remaining
                <= self.polyline@.len() && self.pos + self.remaining <= usize::MAX)
        }
    }

    /// The vertex pairs this iterator will still yield, in order.
    pub closed spec fn remaining_pairs(self) -> Seq<(PlineVertex<T>, PlineVertex<T>)> {
        let s = self.polyline@;
        if self.remaining == 0 {
            Seq::empty()
        } else if self.is_closed_first_pass {
            seq![((s[s.len() - 1], s[0]))] + Seq::new(
                (self.remaining - 1) as nat,
                |i: int| (s[i], s[i + 1]),
            )
        } else {
            Seq::new(self.remaining as nat, |i: int| (s[self.pos - 1 + i], s[self.pos + i]))
        }
    }

}

impl<'a, T: Real> PlineSegIterator<'a, T> {
    /// Build an iterator over the segments of `polyline`.
    pub fn new(polyline: &'a Polyline<T>) -> (r: PlineSegIterator<'a, T>)
        ensures
            r.remaining_pairs() == spec_seg_vertex_pairs(polyline@, polyline.spec_is_closed()),
    {
        let ln = polyline.len();
        let (remaining, first_pass) = if ln < 2 {
            (0, false)
        } else if polyline.is_closed() {
            (ln, true)
        } else {
            (ln - 1, false)
        };
        let r = PlineSegIterator { polyline, pos: 1, remaining, is_closed_first_pass: first_pass };
        proof {
            assert(r.remaining_pairs() =~= spec_seg_vertex_pairs(
                polyline@,
                polyline.spec_is_closed(),
            ));
        }
        r
    }

    /// Yield the next segment as its two vertexes, or nothing when the
    /// traversal is done.
    pub fn next(&mut self) -> (r: Option<(PlineVertex<T>, PlineVertex<T>)>)
        ensures
            old(self).remaining_pairs().len() == 0 ==> r is None && final(self).remaining_pairs()
                == old(self).remaining_pairs(),
            old(self).remaining_pairs().len() > 0 ==> r == Option::Some(
                old(self).remaining_pairs()[0],
            ) && final(self).remaining_pairs() == old(self).remaining_pairs().drop_first(),
    {
        proof {
            use_type_invariant(&*self);
        }
        if self.remaining == 0 {
            return Option::None;
        }
        if self.is_closed_first_pass {
            let ln = self.polyline.len();
            let v1 = self.polyline.at(ln - 1);
            let v2 = self.polyline.at(0);
            *self = PlineSegIterator {
                polyline: self.polyline,
                pos: 1,
                remaining: ln - 1,
                is_closed_first_pass: false,
            };
            proof {
                assert(final(self).remaining_pairs() =~= old(self).remaining_pairs().drop_first());
            }
            return Option::Some((v1, v2));
        }
        let pos = self.pos;
        let v1 = self.polyline.at(pos - 1);
        let v2 = self.polyline.at(pos);
        *self = PlineSegIterator {
            polyline: self.polyline,
            pos: pos + 1,
            remaining: self.remaining - 1,
            is_closed_first_pass: false,
        };
        proof {
            assert(final(self).remaining_pairs() =~= old(self).remaining_pairs().drop_first());
        }
        Option::Some((v1, v2))
    }

    /// The exact number of segments still to come, as a lower and upper
    /// bound.
    pub fn size_hint(&self) -> (r: (usize, Option<usize>))
        ensures
            r.0 == self.remaining_pairs().len(),
            r.1 == Option::Some((self.remaining_pairs().len() as usize)),
    {
        proof {
            use_type_invariant(self);
        }
        (self.remaining, Option::Some(self.remaining))
    }
}

} // verus!
