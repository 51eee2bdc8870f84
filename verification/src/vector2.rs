use vstd::prelude::*;

use crate::scalar::Real;
use crate::scalar::spec_fuzzy_eq_eps;

verus! {

/// A position or direction in the plane.
#[derive(Debug, Clone, Copy)]
pub struct Vector2<T> {
    pub x: T,
    pub y: T,
}

/// Value of `a - b`, component wise.
pub open spec fn spec_vec_sub<T: Real>(a: Vector2<T>, b: Vector2<T>) -> Vector2<T> {
    Vector2 { x: a.x.spec_sub(b.x), y: a.y.spec_sub(b.y) }
}

/// Value of the dot product of `a` and `b`.
pub open spec fn spec_dot<T: Real>(a: Vector2<T>, b: Vector2<T>) -> T {
    a.x.spec_mul(b.x).spec_add(a.y.spec_mul(b.y))
}

/// Squared Euclidean length of `v`.
pub open spec fn spec_length_squared<T: Real>(v: Vector2<T>) -> T {
    spec_dot(v, v)
}

/// Euclidean length of `v`.
pub open spec fn spec_length<T: Real>(v: Vector2<T>) -> T {
    spec_length_squared(v).spec_sqrt()
}

/// Squared Euclidean distance between the points `a` and `b`.
pub open spec fn spec_dist_squared<T: Real>(a: Vector2<T>, b: Vector2<T>) -> T {
    spec_length_squared(spec_vec_sub(b, a))
}

impl<T: Real> Vector2<T> {
    /// Build a vector from its two components.
    pub fn new(x: T, y: T) -> (r: Self)
        ensures
            r == (Vector2 { x, y }),
    {
        Vector2 { x, y }
    }

    /// Component wise subtraction of `other` from `self`.
    pub fn sub(self, other: Self) -> (r: Self)
        ensures
            r == spec_vec_sub(self, other),
    {
        Vector2 { x: self.x.sub(other.x), y: self.y.sub(other.y) }
    }

    /// Dot product of `self` and `other`.
    pub fn dot(self, other: Self) -> (r: T)
        ensures
            r == spec_dot(self, other),
    {
        self.x.mul(other.x).add(self.y.mul(other.y))
    }

    /// Squared Euclidean length of `self`.
    pub fn length_squared(self) -> (r: T)
        ensures
            r == spec_length_squared(self),
    {
        self.dot(self)
    }

    /// Euclidean length of `self`.
    pub fn length(self) -> (r: T)
        ensures
            r == spec_length(self),
    {
        self.length_squared().sqrt()
    }

    /// Whether `self` and `other` coincide within the tolerance `eps`,
    /// component wise.
    pub fn fuzzy_eq_eps(self, other: Self, eps: T) -> (r: bool)
        ensures
            r == (spec_fuzzy_eq_eps(self.x, other.x, eps) && spec_fuzzy_eq_eps(
                self.y,
                other.y,
                eps,
            )),
    {
        crate::scalar::fuzzy_eq_eps(self.x, other.x, eps) && crate::scalar::fuzzy_eq_eps(
            self.y,
            other.y,
            eps,
        )
    }
}

/// Squared Euclidean distance between the points `a` and `b`.
pub fn dist_squared<T: Real>(a: Vector2<T>, b: Vector2<T>) -> (r: T)
    ensures
        r == spec_dist_squared(a, b),
{
    b.sub(a).length_squared()
}

} // verus!
