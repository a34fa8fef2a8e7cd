use vstd::prelude::*;

verus! {

/// What a vector's component type must offer: the four arithmetic operations,
/// negation, square root, reciprocal, the trigonometric functions that the angle
/// and rotation operations use, comparisons, and the constants zero, one and a
/// small positive `epsilon` that approximate comparisons scale by.
///
/// Each operation is taken to be a function of its operands. The spec functions
/// name those functions, and each method returns exactly what its spec function
/// gives. The vector operations are stated over these names, so that their
/// contracts fix which scalar operation is applied to which components, and in
/// which order: for a floating-point type that fixes the rounded result too.
///
/// An implementation verified with this crate overrides each spec function with
/// what its method computes, and proves the method against it. The default
/// bodies (`arbitrary()`, one fixed value whatever the arguments) exist only so
/// that a type implemented in ordinary Rust (a floating-point wrapper, say)
/// need only write the methods. They do not describe such a type: for it, the
/// contracts are an assumption that each method returns the same value for the
/// same operands, which no proof checks. Code generic over `Scalar` never sees
/// the defaults: to it each spec function is an unknown function.
pub trait Scalar: Copy + Sized {
    /// The additive identity.
    open spec fn spec_zero() -> Self {
        arbitrary()
    }

    /// The multiplicative identity.
    open spec fn spec_one() -> Self {
        arbitrary()
    }

    /// The tolerance factor of approximate comparisons.
    open spec fn spec_epsilon() -> Self {
        arbitrary()
    }

    open spec fn spec_add(a: Self, b: Self) -> Self {
        arbitrary()
    }

    open spec fn spec_sub(a: Self, b: Self) -> Self {
        arbitrary()
    }

    open spec fn spec_mul(a: Self, b: Self) -> Self {
        arbitrary()
    }

    open spec fn spec_div(a: Self, b: Self) -> Self {
        arbitrary()
    }

    open spec fn spec_neg(a: Self) -> Self {
        arbitrary()
    }

    open spec fn spec_sqrt(a: Self) -> Self {
        arbitrary()
    }

    /// `1 / a`.
    open spec fn spec_recip(a: Self) -> Self {
        arbitrary()
    }

    open spec fn spec_sin(a: Self) -> Self {
        arbitrary()
    }

    open spec fn spec_cos(a: Self) -> Self {
        arbitrary()
    }

    /// The four-quadrant arc tangent of `y / x`.
    open spec fn spec_atan2(y: Self, x: Self) -> Self {
        arbitrary()
    }

    open spec fn spec_asin(a: Self) -> Self {
        arbitrary()
    }

    /// Whether `a` and `b` compare equal (for floats, `0.0` equals `-0.0` and
    /// NaN equals nothing).
    open spec fn spec_eq(a: Self, b: Self) -> bool {
        arbitrary()
    }

    /// Whether `a < b`.
    open spec fn spec_lt(a: Self, b: Self) -> bool {
        arbitrary()
    }

    /// Whether `a <= b`.
    open spec fn spec_le(a: Self, b: Self) -> bool {
        arbitrary()
    }

    fn zero() -> (r: Self)
        ensures
            r == Self::spec_zero(),
    ;

    fn one() -> (r: Self)
        ensures
            r == Self::spec_one(),
    ;

    fn epsilon() -> (r: Self)
        ensures
            r == Self::spec_epsilon(),
    ;

    fn add(self, rhs: Self) -> (r: Self)
        ensures
            r == Self::spec_add(self, rhs),
    ;

    fn sub(self, rhs: Self) -> (r: Self)
        ensures
            r == Self::spec_sub(self, rhs),
    ;

    fn mul(self, rhs: Self) -> (r: Self)
        ensures
            r == Self::spec_mul(self, rhs),
    ;

    fn div(self, rhs: Self) -> (r: Self)
        ensures
            r == Self::spec_div(self, rhs),
    ;

    fn neg(self) -> (r: Self)
        ensures
            r == Self::spec_neg(self),
    ;

    fn sqrt(self) -> (r: Self)
        ensures
            r == Self::spec_sqrt(self),
    ;

    fn recip(self) -> (r: Self)
        ensures
            r == Self::spec_recip(self),
    ;

    fn sin(self) -> (r: Self)
        ensures
            r == Self::spec_sin(self),
    ;

    fn cos(self) -> (r: Self)
        ensures
            r == Self::spec_cos(self),
    ;

    /// The sine and the cosine, in that order.
    fn sin_cos(self) -> (r: (Self, Self))
        ensures
            r.0 == Self::spec_sin(self),
            r.1 == Self::spec_cos(self),
    ;

    /// The four-quadrant arc tangent of `self / x`.
    fn atan2(self, x: Self) -> (r: Self)
        ensures
            r == Self::spec_atan2(self, x),
    ;

    fn asin(self) -> (r: Self)
        ensures
            r == Self::spec_asin(self),
    ;

    fn equals(self, rhs: Self) -> (r: bool)
        ensures
            r == Self::spec_eq(self, rhs),
    ;

    fn less_than(self, rhs: Self) -> (r: bool)
        ensures
            r == Self::spec_lt(self, rhs),
    ;

    fn less_eq(self, rhs: Self) -> (r: bool)
        ensures
            r == Self::spec_le(self, rhs),
    ;
}

} // verus!
