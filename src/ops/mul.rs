use crate::scalar::Scalar;
use crate::vector::Vector;
use core::ops::{Mul, MulAssign};
use vstd::prelude::*;

verus! {

// Multiplication, component by component: of two vectors, or of a vector and a scalar
// that stands for each of the three components. Every operand form gives the
// same components.

impl<S: Scalar> Mul<Vector<S>> for Vector<S> {
    type Output = Vector<S>;

    fn mul(self, rhs: Vector<S>) -> (r: Vector<S>) {
        Vector { x: S::mul(self.x, rhs.x), y: S::mul(self.y, rhs.y), z: S::mul(self.z, rhs.z) }
    }
}

impl<S: Scalar> vstd::std_specs::ops::MulSpecImpl<Vector<S>> for Vector<S> {
    open spec fn obeys_mul_spec() -> bool {
        true
    }

    open spec fn mul_req(self, rhs: Vector<S>) -> bool {
        true
    }

    open spec fn mul_spec(self, rhs: Vector<S>) -> Vector<S> {
        self.spec_times(rhs)
    }
}

impl<S: Scalar> Mul<S> for Vector<S> {
    type Output = Vector<S>;

    fn mul(self, rhs: S) -> (r: Vector<S>) {
        Vector { x: S::mul(self.x, rhs), y: S::mul(self.y, rhs), z: S::mul(self.z, rhs) }
    }
}

impl<S: Scalar> vstd::std_specs::ops::MulSpecImpl<S> for Vector<S> {
    open spec fn obeys_mul_spec() -> bool {
        true
    }

    open spec fn mul_req(self, rhs: S) -> bool {
        true
    }

    open spec fn mul_spec(self, rhs: S) -> Vector<S> {
        self.spec_scaled(rhs)
    }
}

impl<'a, 'b, S: Scalar> Mul<&'b Vector<S>> for &'a Vector<S> {
    type Output = Vector<S>;

    fn mul(self, rhs: &'b Vector<S>) -> (r: Vector<S>) {
        Vector { x: S::mul(self.x, rhs.x), y: S::mul(self.y, rhs.y), z: S::mul(self.z, rhs.z) }
    }
}

impl<'a, 'b, S: Scalar> vstd::std_specs::ops::MulSpecImpl<&'b Vector<S>> for &'a Vector<S> {
    open spec fn obeys_mul_spec() -> bool {
        true
    }

    open spec fn mul_req(self, rhs: &'b Vector<S>) -> bool {
        true
    }

    open spec fn mul_spec(self, rhs: &'b Vector<S>) -> Vector<S> {
        (*self).spec_times(*rhs)
    }
}

impl<'a, S: Scalar> Mul<S> for &'a Vector<S> {
    type Output = Vector<S>;

    fn mul(self, rhs: S) -> (r: Vector<S>) {
        Vector { x: S::mul(self.x, rhs), y: S::mul(self.y, rhs), z: S::mul(self.z, rhs) }
    }
}

impl<'a, S: Scalar> vstd::std_specs::ops::MulSpecImpl<S> for &'a Vector<S> {
    open spec fn obeys_mul_spec() -> bool {
        true
    }

    open spec fn mul_req(self, rhs: S) -> bool {
        true
    }

    open spec fn mul_spec(self, rhs: S) -> Vector<S> {
        (*self).spec_scaled(rhs)
    }
}

impl<'a, 'b, S: Scalar> Mul<&'b mut Vector<S>> for &'a mut Vector<S> {
    type Output = Vector<S>;

    fn mul(self, rhs: &'b mut Vector<S>) -> (r: Vector<S>)
        ensures
            *final(self) == *old(self),
            *final(rhs) == *old(rhs),
    {
        Vector { x: S::mul(self.x, rhs.x), y: S::mul(self.y, rhs.y), z: S::mul(self.z, rhs.z) }
    }
}

impl<'a, 'b, S: Scalar> vstd::std_specs::ops::MulSpecImpl<&'b mut Vector<S>> for &'a mut Vector<S> {
    open spec fn obeys_mul_spec() -> bool {
        true
    }

    open spec fn mul_req(self, rhs: &'b mut Vector<S>) -> bool {
        true
    }

    open spec fn mul_spec(self, rhs: &'b mut Vector<S>) -> Vector<S> {
        (*self).spec_times(*rhs)
    }
}

impl<'a, S: Scalar> Mul<S> for &'a mut Vector<S> {
    type Output = Vector<S>;

    fn mul(self, rhs: S) -> (r: Vector<S>)
        ensures
            *final(self) == *old(self),
    {
        Vector { x: S::mul(self.x, rhs), y: S::mul(self.y, rhs), z: S::mul(self.z, rhs) }
    }
}

impl<'a, S: Scalar> vstd::std_specs::ops::MulSpecImpl<S> for &'a mut Vector<S> {
    open spec fn obeys_mul_spec() -> bool {
        true
    }

    open spec fn mul_req(self, rhs: S) -> bool {
        true
    }

    open spec fn mul_spec(self, rhs: S) -> Vector<S> {
        (*self).spec_scaled(rhs)
    }
}

impl<S: Scalar> MulAssign<Vector<S>> for Vector<S> {
    fn mul_assign(&mut self, rhs: Vector<S>)
        ensures
            *final(self) == old(self).spec_times(rhs),
    {
        self.x = S::mul(self.x, rhs.x);
        self.y = S::mul(self.y, rhs.y);
        self.z = S::mul(self.z, rhs.z);
    }
}

impl<S: Scalar> MulAssign<S> for Vector<S> {
    fn mul_assign(&mut self, rhs: S)
        ensures
            *final(self) == old(self).spec_scaled(rhs),
    {
        self.x = S::mul(self.x, rhs);
        self.y = S::mul(self.y, rhs);
        self.z = S::mul(self.z, rhs);
    }
}

impl<'a, S: Scalar> MulAssign<&'a Vector<S>> for Vector<S> {
    fn mul_assign(&mut self, rhs: &'a Vector<S>)
        ensures
            *final(self) == old(self).spec_times(*rhs),
    {
        self.x = S::mul(self.x, rhs.x);
        self.y = S::mul(self.y, rhs.y);
        self.z = S::mul(self.z, rhs.z);
    }
}

impl<'a, S: Scalar> MulAssign<&'a mut Vector<S>> for Vector<S> {
    fn mul_assign(&mut self, rhs: &'a mut Vector<S>)
        ensures
            *final(self) == old(self).spec_times(*old(rhs)),
            *final(rhs) == *old(rhs),
    {
        self.x = S::mul(self.x, rhs.x);
        self.y = S::mul(self.y, rhs.y);
        self.z = S::mul(self.z, rhs.z);
    }
}

} // verus!
