use crate::scalar::Scalar;
use crate::vector::Vector;
use vstd::prelude::*;
use vstd::std_specs::convert::FromSpec;
use vstd::std_specs::ops::{AddSpec, DivSpec, MulSpec, NegSpec, SubSpec};

verus! {

/// A sum of three vectors has, in each component, the sum of the three
/// components taken in the same order; a vector times a scalar has each
/// component multiplied by that scalar.
pub proof fn lemma_componentwise<S: Scalar>(a: Vector<S>, b: Vector<S>, c: Vector<S>, s: S)
    ensures
        a.spec_plus(b).spec_plus(c) == (Vector {
            x: S::spec_add(S::spec_add(a.x, b.x), c.x),
            y: S::spec_add(S::spec_add(a.y, b.y), c.y),
            z: S::spec_add(S::spec_add(a.z, b.z), c.z),
        }),
        a.spec_scaled(s) == (Vector {
            x: S::spec_mul(a.x, s),
            y: S::spec_mul(a.y, s),
            z: S::spec_mul(a.z, s),
        }),
{
}

/// Owned and borrowed operands give the same result, for each of the four
/// operators, with a vector or a scalar on the right, and for negation.
pub proof fn lemma_operand_forms_agree<S: Scalar>(a: Vector<S>, b: Vector<S>, s: S)
    ensures
        a.add_spec(b) == (&a).add_spec(&b),
        a.add_spec(b) == a.spec_plus(b),
        a.add_spec(s) == (&a).add_spec(s),
        a.add_spec(s) == a.spec_plus_scalar(s),
        a.sub_spec(b) == (&a).sub_spec(&b),
        a.sub_spec(b) == a.spec_minus(b),
        a.sub_spec(s) == (&a).sub_spec(s),
        a.sub_spec(s) == a.spec_minus_scalar(s),
        a.mul_spec(b) == (&a).mul_spec(&b),
        a.mul_spec(b) == a.spec_times(b),
        a.mul_spec(s) == (&a).mul_spec(s),
        a.mul_spec(s) == a.spec_scaled(s),
        a.div_spec(b) == (&a).div_spec(&b),
        a.div_spec(b) == a.spec_over(b),
        a.div_spec(s) == (&a).div_spec(s),
        a.div_spec(s) == a.spec_divided(s),
        a.neg_spec() == (&a).neg_spec(),
        a.neg_spec() == a.spec_negated(),
{
}

/// Vector addition is associative wherever the scalar addition is associative
/// on the components involved (for floating point, where no rounding intervenes).
pub proof fn lemma_sum_associative<S: Scalar>(a: Vector<S>, b: Vector<S>, c: Vector<S>)
    requires
        S::spec_add(S::spec_add(a.x, b.x), c.x) == S::spec_add(a.x, S::spec_add(b.x, c.x)),
        S::spec_add(S::spec_add(a.y, b.y), c.y) == S::spec_add(a.y, S::spec_add(b.y, c.y)),
        S::spec_add(S::spec_add(a.z, b.z), c.z) == S::spec_add(a.z, S::spec_add(b.z, c.z)),
    ensures
        a.spec_plus(b).spec_plus(c) == a.spec_plus(b.spec_plus(c)),
{
}

/// The cross product anti-commutes, `a x b == -(b x a)`, wherever the scalar
/// products of the components commute and each difference of two such products
/// is the negation of the reversed difference (for floating point: not NaN, and
/// not a difference of equal products, whose zero would change sign).
pub proof fn lemma_cross_anticommutes<S: Scalar>(a: Vector<S>, b: Vector<S>)
    requires
        S::spec_mul(b.y, a.z) == S::spec_mul(a.z, b.y),
        S::spec_mul(b.z, a.y) == S::spec_mul(a.y, b.z),
        S::spec_mul(b.z, a.x) == S::spec_mul(a.x, b.z),
        S::spec_mul(b.x, a.z) == S::spec_mul(a.z, b.x),
        S::spec_mul(b.x, a.y) == S::spec_mul(a.y, b.x),
        S::spec_mul(b.y, a.x) == S::spec_mul(a.x, b.y),
        S::spec_sub(S::spec_mul(a.y, b.z), S::spec_mul(a.z, b.y)) == S::spec_neg(
            S::spec_sub(S::spec_mul(a.z, b.y), S::spec_mul(a.y, b.z)),
        ),
        S::spec_sub(S::spec_mul(a.z, b.x), S::spec_mul(a.x, b.z)) == S::spec_neg(
            S::spec_sub(S::spec_mul(a.x, b.z), S::spec_mul(a.z, b.x)),
        ),
        S::spec_sub(S::spec_mul(a.x, b.y), S::spec_mul(a.y, b.x)) == S::spec_neg(
            S::spec_sub(S::spec_mul(a.y, b.x), S::spec_mul(a.x, b.y)),
        ),
    ensures
        a.spec_cross(b) == b.spec_cross(a).spec_negated(),
{
}

/// Rescaling leaves the zero vector as it is, with no NaN, for a scalar type in
/// which `0 * 0` and `0 + 0` are zero and zero compares equal to itself.
pub proof fn lemma_zero_vector_keeps_zero<S: Scalar>(length: S)
    requires
        S::spec_mul(S::spec_zero(), S::spec_zero()) == S::spec_zero(),
        S::spec_add(S::spec_zero(), S::spec_zero()) == S::spec_zero(),
        S::spec_eq(S::spec_zero(), S::spec_zero()),
    ensures
        Vector::<S>::spec_splat(S::spec_zero()).spec_with_length(length) == Vector::<S>::spec_splat(
            S::spec_zero(),
        ),
        Vector::<S>::spec_splat(S::spec_zero()).spec_with_length_squared(length)
            == Vector::<S>::spec_splat(S::spec_zero()),
{
}

/// Limiting leaves a vector as it is when its squared length does not exceed the
/// square of the cap.
pub proof fn lemma_limit_keeps_short_vector<S: Scalar>(v: Vector<S>, max_length: S)
    requires
        !S::spec_lt(S::spec_mul(max_length, max_length), v.spec_length_squared()),
    ensures
        v.spec_limited(max_length) == v,
{
}

/// Converting a vector to a triple or an array and back gives the same vector,
/// and converting a triple or an array to a vector and back gives the same
/// triple or array.
pub proof fn lemma_conversion_round_trip<S: Scalar>(v: Vector<S>, t: (S, S, S), a: [S; 3])
    ensures
        Vector::<S>::from_spec(<(S, S, S)>::from_spec(v)) == v,
        Vector::<S>::from_spec(<[S; 3]>::from_spec(v)) == v,
        <(S, S, S)>::from_spec(Vector::<S>::from_spec(t)) == t,
        <[S; 3]>::from_spec(Vector::<S>::from_spec(a)) == a,
{
    let back = <[S; 3]>::from_spec(Vector::<S>::from_spec(a));
    assert(back@ =~= a@);
}

} // verus!
