use vstd::prelude::*;

verus! {

/// Abstract scalar type over which all geometry in this crate is computed.
///
/// Each executable operation is paired with a spec function giving its
/// mathematical value; the contracts of the geometric queries are stated over
/// those spec functions. An implementation must supply total (never panicking)
/// operations; what each one returns is the implementor's promise, recorded by
/// the `ensures` clause tying it to the paired spec function.
pub trait Real: Copy + Sized {
    /// Value of `self + other`.
    spec fn spec_add(self, other: Self) -> Self;

    /// Value of `self - other`.
    spec fn spec_sub(self, other: Self) -> Self;

    /// Value of `self * other`.
    spec fn spec_mul(self, other: Self) -> Self;

    /// Value of `self / other`.
    spec fn spec_div(self, other: Self) -> Self;

    /// Value of `-self`.
    spec fn spec_neg(self) -> Self;

    /// Absolute value of `self`.
    spec fn spec_abs(self) -> Self;

    /// Square root of `self`.
    spec fn spec_sqrt(self) -> Self;

    /// Arc cosine of `self`.
    spec fn spec_acos(self) -> Self;

    /// Arc tangent of `self`.
    spec fn spec_atan(self) -> Self;

    /// Four quadrant arc tangent of `self` (the y component) and `x`.
    spec fn spec_atan2(self, x: Self) -> Self;

    /// Sine of `self`.
    spec fn spec_sin(self) -> Self;

    /// Cosine of `self`.
    spec fn spec_cos(self) -> Self;

    /// Smallest integral value not less than `self`.
    spec fn spec_ceil(self) -> Self;

    /// Whether `self < other`.
    spec fn spec_lt(self, other: Self) -> bool;

    /// Whether `self <= other`.
    spec fn spec_lte(self, other: Self) -> bool;

    /// Conversion of `self` to a usize, if representable.
    spec fn spec_to_usize(self) -> Option<usize>;

    /// Conversion of a usize into this scalar type, if representable.
    spec fn spec_from_usize(n: usize) -> Option<Self>;

    /// The additive identity.
    spec fn spec_zero() -> Self;

    /// The multiplicative identity.
    spec fn spec_one() -> Self;

    /// The value two.
    spec fn spec_two() -> Self;

    /// The value four.
    spec fn spec_four() -> Self;

    /// The circle constant pi.
    spec fn spec_pi() -> Self;

    /// The default tolerance used for fuzzy comparisons.
    spec fn spec_fuzzy_epsilon() -> Self;

    /// The largest representable value.
    spec fn spec_max_value() -> Self;

    fn add(self, other: Self) -> (r: Self)
        ensures
            r == self.spec_add(other),
    ;

    fn sub(self, other: Self) -> (r: Self)
        ensures
            r == self.spec_sub(other),
    ;

    fn mul(self, other: Self) -> (r: Self)
        ensures
            r == self.spec_mul(other),
    ;

    fn div(self, other: Self) -> (r: Self)
        ensures
            r == self.spec_div(other),
    ;

    fn neg(self) -> (r: Self)
        ensures
            r == self.spec_neg(),
    ;

    fn abs(self) -> (r: Self)
        ensures
            r == self.spec_abs(),
    ;

    fn sqrt(self) -> (r: Self)
        ensures
            r == self.spec_sqrt(),
    ;

    fn acos(self) -> (r: Self)
        ensures
            r == self.spec_acos(),
    ;

    fn atan(self) -> (r: Self)
        ensures
            r == self.spec_atan(),
    ;

    fn atan2(self, x: Self) -> (r: Self)
        ensures
            r == self.spec_atan2(x),
    ;

    fn sin(self) -> (r: Self)
        ensures
            r == self.spec_sin(),
    ;

    fn cos(self) -> (r: Self)
        ensures
            r == self.spec_cos(),
    ;

    fn ceil(self) -> (r: Self)
        ensures
            r == self.spec_ceil(),
    ;

    fn lt(self, other: Self) -> (r: bool)
        ensures
            r == self.spec_lt(other),
    ;

    fn lte(self, other: Self) -> (r: bool)
        ensures
            r == self.spec_lte(other),
    ;

    fn to_usize(self) -> (r: Option<usize>)
        ensures
            r == self.spec_to_usize(),
    ;

    fn from_usize(n: usize) -> (r: Option<Self>)
        ensures
            r == Self::spec_from_usize(n),
    ;

    fn zero() -> (r: Self)
        ensures
            r == Self::spec_zero(),
    ;

    fn one() -> (r: Self)
        ensures
            r == Self::spec_one(),
    ;

    fn two() -> (r: Self)
        ensures
            r == Self::spec_two(),
    ;

    fn four() -> (r: Self)
        ensures
            r == Self::spec_four(),
    ;

    fn pi() -> (r: Self)
        ensures
            r == Self::spec_pi(),
    ;

    fn fuzzy_epsilon() -> (r: Self)
        ensures
            r == Self::spec_fuzzy_epsilon(),
    ;

    fn max_value() -> (r: Self)
        ensures
            r == Self::spec_max_value(),
    ;

    /// Law every implementation must keep: negation is an involution.
    proof fn neg_involution(x: Self)
        ensures
            x.spec_neg().spec_neg() == x,
    ;
}

/// Whether `a` equals `b` within the tolerance `eps`.
pub open spec fn spec_fuzzy_eq_eps<T: Real>(a: T, b: T, eps: T) -> bool {
    a.spec_sub(b).spec_abs().spec_lte(eps)
}

/// Whether `a` is less than `b` pushed out by the default tolerance.
pub open spec fn spec_fuzzy_lt<T: Real>(a: T, b: T) -> bool {
    a.spec_lt(b.spec_add(T::spec_fuzzy_epsilon()))
}

/// The smaller of two mathematical integers.
pub open spec fn spec_min_int(a: int, b: int) -> int {
    if a < b {
        a
    } else {
        b
    }
}

/// The smaller of `a` and `b` (`a` on ties).
pub open spec fn spec_min_real<T: Real>(a: T, b: T) -> T {
    if b.spec_lt(a) {
        b
    } else {
        a
    }
}

/// The larger of `a` and `b` (`a` on ties).
pub open spec fn spec_max_real<T: Real>(a: T, b: T) -> T {
    if a.spec_lt(b) {
        b
    } else {
        a
    }
}

/// Compare `a` and `b` for equality within the tolerance `eps`.
pub fn fuzzy_eq_eps<T: Real>(a: T, b: T, eps: T) -> (r: bool)
    ensures
        r == spec_fuzzy_eq_eps(a, b, eps),
{
    a.sub(b).abs().lte(eps)
}

/// Whether `a` is less than `b` pushed out by the default tolerance.
pub fn fuzzy_lt<T: Real>(a: T, b: T) -> (r: bool)
    ensures
        r == spec_fuzzy_lt(a, b),
{
    a.lt(b.add(T::fuzzy_epsilon()))
}

/// Return the smaller of `a` and `b` (`a` on ties).
pub fn min_real<T: Real>(a: T, b: T) -> (r: T)
    ensures
        r == spec_min_real(a, b),
{
    if b.lt(a) {
        b
    } else {
        a
    }
}

/// Return the larger of `a` and `b` (`a` on ties).
pub fn max_real<T: Real>(a: T, b: T) -> (r: T)
    ensures
        r == spec_max_real(a, b),
{
    if a.lt(b) {
        b
    } else {
        a
    }
}

} // verus!
