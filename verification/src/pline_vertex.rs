use vstd::prelude::*;

use crate::scalar::Real;
use crate::scalar::spec_fuzzy_eq_eps;
use crate::vector2::Vector2;

verus! {

/// A polyline vertex: a position and the bulge of the segment leaving it.
///
/// A zero bulge means the segment from this vertex to the next one is a
/// straight line; a non-zero bulge means a circular arc whose included angle
/// has tangent of a quarter of it equal to the bulge magnitude, swept counter
/// clockwise for positive bulge and clockwise for negative bulge.
#[derive(Debug, Clone, Copy)]
pub struct PlineVertex<T> {
    pub x: T,
    pub y: T,
    pub bulge: T,
}

/// Whether the bulge of `v` is zero within the default tolerance, so that the
/// segment it starts is treated as a straight line.
pub open spec fn spec_bulge_is_zero<T: Real>(v: PlineVertex<T>) -> bool {
    spec_fuzzy_eq_eps(v.bulge, T::spec_zero(), T::spec_fuzzy_epsilon())
}

/// Whether the bulge of `v` is strictly positive (counter clockwise arc).
pub open spec fn spec_bulge_is_pos<T: Real>(v: PlineVertex<T>) -> bool {
    T::spec_zero().spec_lt(v.bulge)
}

/// Whether the bulge of `v` is strictly negative (clockwise arc).
pub open spec fn spec_bulge_is_neg<T: Real>(v: PlineVertex<T>) -> bool {
    v.bulge.spec_lt(T::spec_zero())
}

/// The position of `v` as a vector.
pub open spec fn spec_pos<T: Real>(v: PlineVertex<T>) -> Vector2<T> {
    Vector2 { x: v.x, y: v.y }
}

impl<T: Real> PlineVertex<T> {
    /// Build a vertex from a position and a bulge.
    pub fn new(x: T, y: T, bulge: T) -> (r: Self)
        ensures
            r == (PlineVertex { x, y, bulge }),
    {
        PlineVertex { x, y, bulge }
    }

    /// The position of the vertex as a vector.
    pub fn pos(self) -> (r: Vector2<T>)
        ensures
            r == spec_pos(self),
    {
        Vector2 { x: self.x, y: self.y }
    }

    /// Whether the bulge is zero within the default tolerance, so that the
    /// segment this vertex starts is treated as a straight line.
    pub fn bulge_is_zero(self) -> (r: bool)
        ensures
            r == spec_bulge_is_zero(self),
    {
        crate::scalar::fuzzy_eq_eps(self.bulge, T::zero(), T::fuzzy_epsilon())
    }

    /// Whether the bulge is strictly positive (counter clockwise arc).
    pub fn bulge_is_pos(self) -> (r: bool)
        ensures
            r == spec_bulge_is_pos(self),
    {
        T::zero().lt(self.bulge)
    }

    /// Whether the bulge is strictly negative (clockwise arc).
    pub fn bulge_is_neg(self) -> (r: bool)
        ensures
            r == spec_bulge_is_neg(self),
    {
        self.bulge.lt(T::zero())
    }

    /// Whether `self` and `other` agree in position and bulge within the
    /// tolerance `eps`.
    pub fn fuzzy_eq_eps(self, other: Self, eps: T) -> (r: bool)
        ensures
            r == (spec_fuzzy_eq_eps(self.x, other.x, eps) && spec_fuzzy_eq_eps(
                self.y,
                other.y,
                eps,
            ) && spec_fuzzy_eq_eps(self.bulge, other.bulge, eps)),
    {
        crate::scalar::fuzzy_eq_eps(self.x, other.x, eps) && crate::scalar::fuzzy_eq_eps(
            self.y,
            other.y,
            eps,
        ) && crate::scalar::fuzzy_eq_eps(self.bulge, other.bulge, eps)
    }

    /// Whether `self` and `other` agree in position and bulge within the
    /// default tolerance.
    pub fn fuzzy_eq(self, other: Self) -> (r: bool)
        ensures
            r == (spec_fuzzy_eq_eps(self.x, other.x, T::spec_fuzzy_epsilon())
                && spec_fuzzy_eq_eps(self.y, other.y, T::spec_fuzzy_epsilon())
                && spec_fuzzy_eq_eps(self.bulge, other.bulge, T::spec_fuzzy_epsilon())),
    {
        self.fuzzy_eq_eps(other, T::fuzzy_epsilon())
    }
}

} // verus!
