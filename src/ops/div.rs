use crate::scalar::Scalar;
use crate::vector::Vector;
use core::ops::{Div, DivAssign};
use vstd::prelude::*;

verus! {

// Division, component by component: of two vectors, or of a vector and a scalar
// that stands for each of the three components. Every operand form gives the
// same components.

impl<S: Scalar> Div<Vector<S>> for Vector<S> {
    type Output = Vector<S>;

    fn div(self, rhs: Vector<S>) -> (r: Vector<S>) {
        Vector { x: S::div(self.x, rhs.x), y: S::div(self.y, rhs.y), z: S::div(self.z, rhs.z) }
    }
}

impl<S: Scalar> vstd::std_specs::ops::DivSpecImpl<Vector<S>> for Vector<S> {
    open spec fn obeys_div_spec() -> bool {
        true
    }

    open spec fn div_req(self, rhs: Vector<S>) -> bool {
        true
    }

    open spec fn div_spec(self, rhs: Vector<S>) -> Vector<S> {
        self.spec_over(rhs)
    }
}

impl<S: Scalar> Div<S> for Vector<S> {
    type Output = Vector<S>;

    fn div(self, rhs: S) -> (r: Vector<S>) {
        Vector { x: S::div(self.x, rhs), y: S::div(self.y, rhs), z: S::div(self.z, rhs) }
    }
}

impl<S: Scalar> vstd::std_specs::ops::DivSpecImpl<S> for Vector<S> {
    open spec fn obeys_div_spec() -> bool {
        true
    }

    open spec fn div_req(self, rhs: S) -> bool {
        true
    }

    open spec fn div_spec(self, rhs: S) -> Vector<S> {
        self.spec_divided(rhs)
    }
}

impl<'a, 'b, S: Scalar> Div<&'b Vector<S>> for &'a Vector<S> {
    type Output = Vector<S>;

    fn div(self, rhs: &'b Vector<S>) -> (r: Vector<S>) {
        Vector { x: S::div(self.x, rhs.x), y: S::div(self.y, rhs.y), z: S::div(self.z, rhs.z) }
    }
}

impl<'a, 'b, S: Scalar> vstd::std_specs::ops::DivSpecImpl<&'b Vector<S>> for &'a Vector<S> {
    open spec fn obeys_div_spec() -> bool {
        true
    }

    open spec fn div_req(self, rhs: &'b Vector<S>) -> bool {
        true
    }

    open spec fn div_spec(self, rhs: &'b Vector<S>) -> Vector<S> {
        (*self).spec_over(*rhs)
    }
}

impl<'a, S: Scalar> Div<S> for &'a Vector<S> {
    type Output = Vector<S>;

    fn div(self, rhs: S) -> (r: Vector<S>) {
        Vector { x: S::div(self.x, rhs), y: S::div(self.y, rhs), z: S::div(self.z, rhs) }
    }
}

impl<'a, S: Scalar> vstd::std_specs::ops::DivSpecImpl<S> for &'a Vector<S> {
    open spec fn obeys_div_spec() -> bool {
        true
    }

    open spec fn div_req(self, rhs: S) -> bool {
        true
    }

    open spec fn div_spec(self, rhs: S) -> Vector<S> {
        (*self).spec_divided(rhs)
    }
}

impl<'a, 'b, S: Scalar> Div<&'b mut Vector<S>> for &'a mut Vector<S> {
    type Output = Vector<S>;

    fn div(self, rhs: &'b mut Vector<S>) -> (r: Vector<S>)
        ensures
            *final(self) == *old(self),
            *final(rhs) == *old(rhs),
    {
        Vector { x: S::div(self.x, rhs.x), y: S::div(self.y, rhs.y), z: S::div(self.z, rhs.z) }
    }
}

impl<'a, 'b, S: Scalar> vstd::std_specs::ops::DivSpecImpl<&'b mut Vector<S>> for &'a mut Vector<S> {
    open spec fn obeys_div_spec() -> bool {
        true
    }

    open spec fn div_req(self, rhs: &'b mut Vector<S>) -> bool {
        true
    }

    open spec fn div_spec(self, rhs: &'b mut Vector<S>) -> Vector<S> {
        (*self).spec_over(*rhs)
    }
}

impl<'a, S: Scalar> Div<S> for &'a mut Vector<S> {
    type Output = Vector<S>;

    fn div(self, rhs: S) -> (r: Vector<S>)
        ensures
            *final(self) == *old(self),
    {
        Vector { x: S::div(self.x, rhs), y: S::div(self.y, rhs), z: S::div(self.z, rhs) }
    }
}

impl<'a, S: Scalar> vstd::std_specs::ops::DivSpecImpl<S> for &'a mut Vector<S> {
    open spec fn obeys_div_spec() -> bool {
        true
    }

    open spec fn div_req(self, rhs: S) -> bool {
        true
    }

    open spec fn div_spec(self, rhs: S) -> Vector<S> {
        (*self).spec_divided(rhs)
    }
}

impl<S: Scalar> DivAssign<Vector<S>> for Vector<S> {
    fn div_assign(&mut self, rhs: Vector<S>)
        ensures
            *final(self) == old(self).spec_over(rhs),
    {
        self.x = S::div(self.x, rhs.x);
        self.y = S::div(self.y, rhs.y);
        self.z = S::div(self.z, rhs.z);
    }
}

impl<S: Scalar> DivAssign<S> for Vector<S> {
    fn div_assign(&mut self, rhs: S)
        ensures
            *final(self) == old(self).spec_divided(rhs),
    {
        self.x = S::div(self.x, rhs);
        self.y = S::div(self.y, rhs);
        self.z = S::div(self.z, rhs);
    }
}

impl<'a, S: Scalar> DivAssign<&'a Vector<S>> for Vector<S> {
    fn div_assign(&mut self, rhs: &'a Vector<S>)
        ensures
            *final(self) == old(self).spec_over(*rhs),
    {
        self.x = S::div(self.x, rhs.x);
        self.y = S::div(self.y, rhs.y);
        self.z = S::div(self.z, rhs.z);
    }
}

impl<'a, S: Scalar> DivAssign<&'a mut Vector<S>> for Vector<S> {
    fn div_assign(&mut self, rhs: &'a mut Vector<S>)
        ensures
            *final(self) == old(self).spec_over(*old(rhs)),
            *final(rhs) == *old(rhs),
    {
        self.x = S::div(self.x, rhs.x);
        self.y = S::div(self.y, rhs.y);
        self.z = S::div(self.z, rhs.z);
    }
}

} // verus!
