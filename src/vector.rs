use crate::scalar::Scalar;
use vstd::prelude::*;

verus! {

/// A Euclidean vector in three-dimensional space: the components `x`, `y` and
/// `z`, all of the scalar type `S`.
///
/// Any three values make a vector: nothing is checked on construction, and
/// non-finite components are carried through the operations as the scalar type's
/// own arithmetic carries them.
#[derive(Copy, Clone, Debug, PartialEq, Eq)]
pub struct Vector<S> {
    pub x: S,
    pub y: S,
    pub z: S,
}

// The mathematical model: each operation below is stated as one of these
// expressions over the scalar type's operations.
impl<S: Scalar> Vector<S> {
    /// The vector whose three components are `s`.
    pub open spec fn spec_splat(s: S) -> Self {
        Vector { x: s, y: s, z: s }
    }

    pub open spec fn spec_plus(self, o: Self) -> Self {
        Vector { x: S::spec_add(self.x, o.x), y: S::spec_add(self.y, o.y), z: S::spec_add(self.z, o.z) }
    }

    pub open spec fn spec_minus(self, o: Self) -> Self {
        Vector { x: S::spec_sub(self.x, o.x), y: S::spec_sub(self.y, o.y), z: S::spec_sub(self.z, o.z) }
    }

    pub open spec fn spec_times(self, o: Self) -> Self {
        Vector { x: S::spec_mul(self.x, o.x), y: S::spec_mul(self.y, o.y), z: S::spec_mul(self.z, o.z) }
    }

    pub open spec fn spec_over(self, o: Self) -> Self {
        Vector { x: S::spec_div(self.x, o.x), y: S::spec_div(self.y, o.y), z: S::spec_div(self.z, o.z) }
    }

    pub open spec fn spec_plus_scalar(self, s: S) -> Self {
        Vector { x: S::spec_add(self.x, s), y: S::spec_add(self.y, s), z: S::spec_add(self.z, s) }
    }

    pub open spec fn spec_minus_scalar(self, s: S) -> Self {
        Vector { x: S::spec_sub(self.x, s), y: S::spec_sub(self.y, s), z: S::spec_sub(self.z, s) }
    }

    pub open spec fn spec_scaled(self, s: S) -> Self {
        Vector { x: S::spec_mul(self.x, s), y: S::spec_mul(self.y, s), z: S::spec_mul(self.z, s) }
    }

    pub open spec fn spec_divided(self, s: S) -> Self {
        Vector { x: S::spec_div(self.x, s), y: S::spec_div(self.y, s), z: S::spec_div(self.z, s) }
    }

    pub open spec fn spec_negated(self) -> Self {
        Vector { x: S::spec_neg(self.x), y: S::spec_neg(self.y), z: S::spec_neg(self.z) }
    }

    /// `x * x' + y * y' + z * z'`, summed from the left.
    pub open spec fn spec_dot(self, o: Self) -> S {
        S::spec_add(
            S::spec_add(S::spec_mul(self.x, o.x), S::spec_mul(self.y, o.y)),
            S::spec_mul(self.z, o.z),
        )
    }

    /// The right-handed cross product.
    pub open spec fn spec_cross(self, o: Self) -> Self {
        Vector {
            x: S::spec_sub(S::spec_mul(self.y, o.z), S::spec_mul(self.z, o.y)),
            y: S::spec_sub(S::spec_mul(self.z, o.x), S::spec_mul(self.x, o.z)),
            z: S::spec_sub(S::spec_mul(self.x, o.y), S::spec_mul(self.y, o.x)),
        }
    }

    pub open spec fn spec_length_squared(self) -> S {
        self.spec_dot(self)
    }

    pub open spec fn spec_length(self) -> S {
        S::spec_sqrt(self.spec_length_squared())
    }

    /// `self - 2 (self . normal) normal`, with `2` computed as `1 + 1`.
    pub open spec fn spec_reflect(self, normal: Self) -> Self {
        self.spec_minus(
            normal.spec_scaled(self.spec_dot(normal)).spec_scaled(S::spec_add(S::spec_one(), S::spec_one())),
        )
    }

    /// `|self - reference|^2 <= |reference|^2 * epsilon`: the tolerance scales with
    /// the reference alone.
    pub open spec fn spec_is_close(self, reference: Self) -> bool {
        S::spec_le(
            self.spec_minus(reference).spec_length_squared(),
            S::spec_mul(reference.spec_length_squared(), S::spec_epsilon()),
        )
    }

    /// Whether the squared length compares equal to zero: the degenerate case in
    /// which rescaling leaves a vector as it is.
    pub open spec fn spec_is_degenerate(self) -> bool {
        S::spec_eq(self.spec_length_squared(), S::spec_zero())
    }

    /// Each component multiplied by `length / |self|` (as `length * recip(sqrt(|self|^2))`),
    /// unless the squared length is zero.
    pub open spec fn spec_with_length(self, length: S) -> Self {
        if self.spec_is_degenerate() {
            self
        } else {
            self.spec_scaled(S::spec_mul(length, S::spec_recip(self.spec_length())))
        }
    }

    /// Each component multiplied by `length_squared / |self|^2`, unless the
    /// squared length is zero.
    pub open spec fn spec_with_length_squared(self, length_squared: S) -> Self {
        if self.spec_is_degenerate() {
            self
        } else {
            self.spec_scaled(S::spec_div(length_squared, self.spec_length_squared()))
        }
    }

    /// Rescaled to `max_length` when the squared length exceeds `max_length^2`,
    /// else unchanged.
    pub open spec fn spec_limited(self, max_length: S) -> Self {
        if S::spec_lt(S::spec_mul(max_length, max_length), self.spec_length_squared()) {
            self.spec_scaled(S::spec_mul(max_length, S::spec_recip(self.spec_length())))
        } else {
            self
        }
    }

    /// Rodrigues' rotation formula for a unit `axis`:
    /// `v cos + (axis x v) sin + axis (axis . v) (1 - cos)`, summed from the left.
    pub open spec fn spec_rotated(self, angle: S, axis: Self) -> Self {
        let sin = S::spec_sin(angle);
        let cos = S::spec_cos(angle);
        self.spec_scaled(cos).spec_plus(axis.spec_cross(self).spec_scaled(sin)).spec_plus(
            axis.spec_scaled(axis.spec_dot(self)).spec_scaled(S::spec_sub(S::spec_one(), cos)),
        )
    }

    /// The unit vector with azimuth `theta` and elevation `phi`.
    pub open spec fn spec_from_polar(theta: S, phi: S) -> Self {
        Vector {
            x: S::spec_mul(S::spec_cos(theta), S::spec_cos(phi)),
            y: S::spec_mul(S::spec_sin(theta), S::spec_cos(phi)),
            z: S::spec_sin(phi),
        }
    }

    /// The unit vector in the plane `z = 0` at angle `theta` from the x axis.
    pub open spec fn spec_from_angle(theta: S) -> Self {
        Vector { x: S::spec_cos(theta), y: S::spec_sin(theta), z: S::spec_zero() }
    }

    pub open spec fn spec_heading2d(self) -> S {
        S::spec_atan2(self.y, self.x)
    }

    /// The azimuth `atan2(y, x)` and the elevation `asin(z / |self|)`.
    pub open spec fn spec_heading3d(self) -> (S, S) {
        (S::spec_atan2(self.y, self.x), S::spec_asin(S::spec_div(self.z, self.spec_length())))
    }
}

impl<S: Scalar> Vector<S> {
    /// Create a new vector.
    pub fn new(x: S, y: S, z: S) -> (r: Self)
        ensures
            r == (Vector { x, y, z }),
    {
        Vector { x, y, z }
    }

    /// A vector with the same components as `src`.
    pub fn from_vec<U: Scalar>(src: Vector<U>) -> (r: Vector<U>)
        ensures
            r == src,
    {
        Vector { x: src.x, y: src.y, z: src.z }
    }

    /// Convert each component to the scalar type `U`.
    pub fn into_vec<U: From<S>>(self) -> (r: Vector<U>)
        ensures
            <U as vstd::std_specs::convert::FromSpec<S>>::obeys_from_spec() ==> r == (Vector {
                x: <U as vstd::std_specs::convert::FromSpec<S>>::from_spec(self.x),
                y: <U as vstd::std_specs::convert::FromSpec<S>>::from_spec(self.y),
                z: <U as vstd::std_specs::convert::FromSpec<S>>::from_spec(self.z),
            }),
    {
        Vector { x: U::from(self.x), y: U::from(self.y), z: U::from(self.z) }
    }

    /// The vector whose components are all zero; the same as `zero`.
    pub fn default() -> (r: Self)
        ensures
            r == Self::spec_splat(S::spec_zero()),
    {
        Self::zero()
    }

    /// The vector whose components are all one.
    pub fn one() -> (r: Self)
        ensures
            r == Self::spec_splat(S::spec_one()),
    {
        Vector { x: S::one(), y: S::one(), z: S::one() }
    }

    /// The vector whose components are all zero.
    pub fn zero() -> (r: Self)
        ensures
            r == Self::spec_splat(S::spec_zero()),
    {
        Vector { x: S::zero(), y: S::zero(), z: S::zero() }
    }

    /// Set all components to zero.
    pub fn reset(&mut self)
        ensures
            *final(self) == Self::spec_splat(S::spec_zero()),
    {
        self.x = S::zero();
        self.y = S::zero();
        self.z = S::zero();
    }

    /// The projection on the x axis: `y` and `z` set to zero.
    pub fn abscissa(self) -> (r: Self)
        ensures
            r == (Vector { x: self.x, y: S::spec_zero(), z: S::spec_zero() }),
    {
        Vector { x: self.x, y: S::zero(), z: S::zero() }
    }

    /// The projection on the y axis: `x` and `z` set to zero.
    pub fn ordinate(self) -> (r: Self)
        ensures
            r == (Vector { x: S::spec_zero(), y: self.y, z: S::spec_zero() }),
    {
        Vector { x: S::zero(), y: self.y, z: S::zero() }
    }

    /// The projection on the z axis: `x` and `y` set to zero.
    pub fn applicate(self) -> (r: Self)
        ensures
            r == (Vector { x: S::spec_zero(), y: S::spec_zero(), z: self.z }),
    {
        Vector { x: S::zero(), y: S::zero(), z: self.z }
    }

    /// The unit vector with azimuth `theta` and elevation `phi`.
    /// Use `from_angle` for an angle in the plane.
    pub fn from_polar(theta: S, phi: S) -> (r: Self)
        ensures
            r == Self::spec_from_polar(theta, phi),
    {
        Vector { x: S::mul(theta.cos(), phi.cos()), y: S::mul(theta.sin(), phi.cos()), z: phi.sin() }
    }

    /// The unit vector in the plane `z = 0` at angle `theta` from the x axis.
    /// Use `from_polar` for a direction in space.
    pub fn from_angle(theta: S) -> (r: Self)
        ensures
            r == Self::spec_from_angle(theta),
    {
        Vector { x: theta.cos(), y: theta.sin(), z: S::zero() }
    }

    /// Linear interpolation `self + (other - self) * t`; `t` is not clamped.
    pub fn lerp(self, other: Self, t: S) -> (r: Self)
        ensures
            r == self.spec_plus(other.spec_minus(self).spec_scaled(t)),
    {
        self + (other - self) * t
    }

    /// The dot product.
    pub fn dot(self, other: Self) -> (r: S)
        ensures
            r == self.spec_dot(other),
    {
        S::add(S::add(S::mul(self.x, other.x), S::mul(self.y, other.y)), S::mul(self.z, other.z))
    }

    /// The right-handed cross product.
    pub fn cross(self, other: Self) -> (r: Self)
        ensures
            r == self.spec_cross(other),
    {
        Vector {
            x: S::sub(S::mul(self.y, other.z), S::mul(self.z, other.y)),
            y: S::sub(S::mul(self.z, other.x), S::mul(self.x, other.z)),
            z: S::sub(S::mul(self.x, other.y), S::mul(self.y, other.x)),
        }
    }

    /// The squared length: cheaper than `length`, as no square root is taken.
    pub fn length_squared(self) -> (r: S)
        ensures
            r == self.spec_length_squared(),
    {
        self.dot(self)
    }

    /// The length.
    pub fn length(self) -> (r: S)
        ensures
            r == self.spec_length(),
    {
        self.length_squared().sqrt()
    }

    /// The squared length of `self - other`.
    pub fn distance_squared(self, other: Self) -> (r: S)
        ensures
            r == self.spec_minus(other).spec_length_squared(),
    {
        (self - other).length_squared()
    }

    /// The Euclidean distance: the length of `self - other`.
    pub fn distance(self, other: Self) -> (r: S)
        ensures
            r == self.spec_minus(other).spec_length(),
    {
        (self - other).length()
    }

    /// The reflection on a surface whose local normal is `normal`, which is taken
    /// to be of unit length and is not normalized here.
    pub fn reflect(self, normal: Self) -> (r: Self)
        ensures
            r == self.spec_reflect(normal),
    {
        self - normal * self.dot(normal) * S::add(S::one(), S::one())
    }

    /// Approximate equality, with an error relative to the length of `reference`:
    /// `|self - reference|^2 <= |reference|^2 * epsilon`.
    pub fn is_close(self, reference: Self) -> (r: bool)
        ensures
            r == self.spec_is_close(reference),
    {
        let num = (self - reference).length_squared();
        let den = reference.length_squared();
        num.less_eq(S::mul(den, S::epsilon()))
    }
}

impl<S: Scalar> Vector<S> {
    /// Rescale to length `length`. A vector whose squared length is zero is left
    /// as it is, where a division would give NaN.
    pub fn set_length(&mut self, length: S)
        ensures
            *final(self) == old(self).spec_with_length(length),
    {
        let len_sq = self.length_squared();
        if !len_sq.equals(S::zero()) {
            let factor = S::mul(length, len_sq.sqrt().recip());
            self.x = S::mul(self.x, factor);
            self.y = S::mul(self.y, factor);
            self.z = S::mul(self.z, factor);
        }
    }

    /// Rescale to squared length `length_squared`, without a square root. A
    /// vector whose squared length is zero is left as it is.
    pub fn set_length_squared(&mut self, length_squared: S)
        ensures
            *final(self) == old(self).spec_with_length_squared(length_squared),
    {
        let len_sq = self.length_squared();
        if !len_sq.equals(S::zero()) {
            let factor = S::div(length_squared, len_sq);
            self.x = S::mul(self.x, factor);
            self.y = S::mul(self.y, factor);
            self.z = S::mul(self.z, factor);
        }
    }

    /// A copy rescaled to length `length`, as `set_length` does.
    pub fn with_length(self, length: S) -> (r: Self)
        ensures
            r == self.spec_with_length(length),
    {
        let mut v = self;
        v.set_length(length);
        v
    }

    /// A copy rescaled to squared length `length_squared`, as `set_length_squared`
    /// does.
    pub fn with_length_squared(self, length_squared: S) -> (r: Self)
        ensures
            r == self.spec_with_length_squared(length_squared),
    {
        let mut v = self;
        v.set_length_squared(length_squared);
        v
    }

    /// Shorten to length `max_length` when longer; a vector that is not longer is
    /// left as it is, and none is lengthened.
    pub fn limit(&mut self, max_length: S)
        ensures
            *final(self) == old(self).spec_limited(max_length),
    {
        let len_sq = self.length_squared();
        if S::mul(max_length, max_length).less_than(len_sq) {
            let factor = S::mul(max_length, len_sq.sqrt().recip());
            self.x = S::mul(self.x, factor);
            self.y = S::mul(self.y, factor);
            self.z = S::mul(self.z, factor);
        }
    }

    /// A copy limited to length `max_length`, as `limit` does.
    pub fn limited(self, max_length: S) -> (r: Self)
        ensures
            r == self.spec_limited(max_length),
    {
        let mut v = self;
        v.limit(max_length);
        v
    }

    /// Rescale to unit length; a vector whose squared length is zero is left as it is.
    pub fn normalize(&mut self)
        ensures
            *final(self) == old(self).spec_with_length(S::spec_one()),
    {
        self.set_length(S::one());
    }

    /// A copy of unit length, as `normalize` gives.
    pub fn normalized(self) -> (r: Self)
        ensures
            r == self.spec_with_length(S::spec_one()),
    {
        let mut v = self;
        v.normalize();
        v
    }

    /// The angle in the plane between the positive x axis and the vector: `atan2(y, x)`.
    pub fn heading2d(self) -> (r: S)
        ensures
            r == self.spec_heading2d(),
    {
        self.y.atan2(self.x)
    }

    /// The azimuth `atan2(y, x)` and the elevation `asin(z / length)`; the
    /// elevation is NaN for a vector of length zero.
    pub fn heading3d(self) -> (r: (S, S))
        ensures
            r == self.spec_heading3d(),
    {
        let theta = self.y.atan2(self.x);
        let phi = S::div(self.z, self.length()).asin();
        (theta, phi)
    }

    /// The unsigned angle between two vectors, `atan2(|self x other|, self . other)`.
    pub fn angle_between(self, other: Self) -> (r: S)
        ensures
            r == S::spec_atan2(self.spec_cross(other).spec_length(), self.spec_dot(other)),
    {
        let dot = self.dot(other);
        let det = self.cross(other).length();
        det.atan2(dot)
    }

    /// A copy rotated by `angle` radians around `axis`, by Rodrigues' formula.
    /// The axis is taken to be of unit length and is not normalized here: another
    /// axis gives a result of the wrong length.
    pub fn rotated(self, angle: S, axis: Self) -> (r: Self)
        ensures
            r == self.spec_rotated(angle, axis),
    {
        let (sin, cos) = angle.sin_cos();
        self * cos + axis.cross(self) * sin + axis * axis.dot(self) * S::sub(S::one(), cos)
    }

    /// Rotate by `angle` radians around `axis`, which is taken to be of unit length.
    pub fn rotate(&mut self, angle: S, axis: Self)
        ensures
            *final(self) == old(self).spec_rotated(angle, axis),
    {
        let tmp = self.rotated(angle, axis);
        *self = tmp;
    }

    /// Rotate by `angle` radians around the x axis.
    pub fn rotate_x(&mut self, angle: S)
        ensures
            *final(self) == old(self).spec_rotated(
                angle,
                Vector { x: S::spec_one(), y: S::spec_zero(), z: S::spec_zero() },
            ),
    {
        self.rotate(angle, Vector::one().abscissa());
    }

    /// Rotate by `angle` radians around the y axis.
    pub fn rotate_y(&mut self, angle: S)
        ensures
            *final(self) == old(self).spec_rotated(
                angle,
                Vector { x: S::spec_zero(), y: S::spec_one(), z: S::spec_zero() },
            ),
    {
        self.rotate(angle, Vector::one().ordinate());
    }

    /// Rotate by `angle` radians around the z axis.
    pub fn rotate_z(&mut self, angle: S)
        ensures
            *final(self) == old(self).spec_rotated(
                angle,
                Vector { x: S::spec_zero(), y: S::spec_zero(), z: S::spec_one() },
            ),
    {
        self.rotate(angle, Vector::one().applicate());
    }
}

} // verus!
