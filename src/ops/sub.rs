use crate::scalar::Scalar;
use crate::vector::Vector;
use core::ops::{Sub, SubAssign};
use vstd::prelude::*;

verus! {

// Subtraction, component by component: of two vectors, or of a vector and a scalar
// that stands for each of the three components. Every operand form gives the
// same components.

impl<S: Scalar> Sub<Vector<S>> for Vector<S> {
    type Output = Vector<S>;

    fn sub(self, rhs: Vector<S>) -> (r: Vector<S>) {
        Vector { x: S::sub(self.x, rhs.x), y: S::sub(self.y, rhs.y), z: S::sub(self.z, rhs.z) }
    }
}

impl<S: Scalar> vstd::std_specs::ops::SubSpecImpl<Vector<S>> for Vector<S> {
    open spec fn obeys_sub_spec() -> bool {
        true
    }

    open spec fn sub_req(self, rhs: Vector<S>) -> bool {
        true
    }

    open spec fn sub_spec(self, rhs: Vector<S>) -> Vector<S> {
        self.spec_minus(rhs)
    }
}

impl<S: Scalar> Sub<S> for Vector<S> {
    type Output = Vector<S>;

    fn sub(self, rhs: S) -> (r: Vector<S>) {
        Vector { x: S::sub(self.x, rhs), y: S::sub(self.y, rhs), z: S::sub(self.z, rhs) }
    }
}

impl<S: Scalar> vstd::std_specs::ops::SubSpecImpl<S> for Vector<S> {
    open spec fn obeys_sub_spec() -> bool {
        true
    }

    open spec fn sub_req(self, rhs: S) -> bool {
        true
    }

    open spec fn sub_spec(self, rhs: S) -> Vector<S> {
        self.spec_minus_scalar(rhs)
    }
}

impl<'a, 'b, S: Scalar> Sub<&'b Vector<S>> for &'a Vector<S> {
    type Output = Vector<S>;

    fn sub(self, rhs: &'b Vector<S>) -> (r: Vector<S>) {
        Vector { x: S::sub(self.x, rhs.x), y: S::sub(self.y, rhs.y), z: S::sub(self.z, rhs.z) }
    }
}

impl<'a, 'b, S: Scalar> vstd::std_specs::ops::SubSpecImpl<&'b Vector<S>> for &'a Vector<S> {
    open spec fn obeys_sub_spec() -> bool {
        true
    }

    open spec fn sub_req(self, rhs: &'b Vector<S>) -> bool {
        true
    }

    open spec fn sub_spec(self, rhs: &'b Vector<S>) -> Vector<S> {
        (*self).spec_minus(*rhs)
    }
}

impl<'a, S: Scalar> Sub<S> for &'a Vector<S> {
    type Output = Vector<S>;

    fn sub(self, rhs: S) -> (r: Vector<S>) {
        Vector { x: S::sub(self.x, rhs), y: S::sub(self.y, rhs), z: S::sub(self.z, rhs) }
    }
}

impl<'a, S: Scalar> vstd::std_specs::ops::SubSpecImpl<S> for &'a Vector<S> {
    open spec fn obeys_sub_spec() -> bool {
        true
    }

    open spec fn sub_req(self, rhs: S) -> bool {
        true
    }

    open spec fn sub_spec(self, rhs: S) -> Vector<S> {
        (*self).spec_minus_scalar(rhs)
    }
}

impl<'a, 'b, S: Scalar> Sub<&'b mut Vector<S>> for &'a mut Vector<S> {
    type Output = Vector<S>;

    fn sub(self, rhs: &'b mut Vector<S>) -> (r: Vector<S>)
        ensures
            *final(self) == *old(self),
            *final(rhs) == *old(rhs),
    {
        Vector { x: S::sub(self.x, rhs.x), y: S::sub(self.y, rhs.y), z: S::sub(self.z, rhs.z) }
    }
}

impl<'a, 'b, S: Scalar> vstd::std_specs::ops::SubSpecImpl<&'b mut Vector<S>> for &'a mut Vector<S> {
    open spec fn obeys_sub_spec() -> bool {
        true
    }

    open spec fn sub_req(self, rhs: &'b mut Vector<S>) -> bool {
        true
    }

    open spec fn sub_spec(self, rhs: &'b mut Vector<S>) -> Vector<S> {
        (*self).spec_minus(*rhs)
    }
}

impl<'a, S: Scalar> Sub<S> for &'a mut Vector<S> {
    type Output = Vector<S>;

    fn sub(self, rhs: S) -> (r: Vector<S>)
        ensures
            *final(self) == *old(self),
    {
        Vector { x: S::sub(self.x, rhs), y: S::sub(self.y, rhs), z: S::sub(self.z, rhs) }
    }
}

impl<'a, S: Scalar> vstd::std_specs::ops::SubSpecImpl<S> for &'a mut Vector<S> {
    open spec fn obeys_sub_spec() -> bool {
        true
    }

    open spec fn sub_req(self, rhs: S) -> bool {
        true
    }

    open spec fn sub_spec(self, rhs: S) -> Vector<S> {
        (*self).spec_minus_scalar(rhs)
    }
}

impl<S: Scalar> SubAssign<Vector<S>> for Vector<S> {
    fn sub_assign(&mut self, rhs: Vector<S>)
        ensures
            *final(self) == old(self).spec_minus(rhs),
    {
        self.x = S::sub(self.x, rhs.x);
        self.y = S::sub(self.y, rhs.y);
        self.z = S::sub(self.z, rhs.z);
    }
}

impl<S: Scalar> SubAssign<S> for Vector<S> {
    fn sub_assign(&mut self, rhs: S)
        ensures
            *final(self) == old(self).spec_minus_scalar(rhs),
    {
        self.x = S::sub(self.x, rhs);
        self.y = S::sub(self.y, rhs);
        self.z = S::sub(self.z, rhs);
    }
}

impl<'a, S: Scalar> SubAssign<&'a Vector<S>> for Vector<S> {
    fn sub_assign(&mut self, rhs: &'a Vector<S>)
        ensures
            *final(self) == old(self).spec_minus(*rhs),
    {
        self.x = S::sub(self.x, rhs.x);
        self.y = S::sub(self.y, rhs.y);
        self.z = S::sub(self.z, rhs.z);
    }
}

impl<'a, S: Scalar> SubAssign<&'a mut Vector<S>> for Vector<S> {
    fn sub_assign(&mut self, rhs: &'a mut Vector<S>)
        ensures
            *final(self) == old(self).spec_minus(*old(rhs)),
            *final(rhs) == *old(rhs),
    {
        self.x = S::sub(self.x, rhs.x);
        self.y = S::sub(self.y, rhs.y);
        self.z = S::sub(self.z, rhs.z);
    }
}

} // verus!
