use crate::scalar::Scalar;
use crate::vector::Vector;
use core::ops::{Add, AddAssign};
use vstd::prelude::*;

verus! {

// Addition, component by component: of two vectors, or of a vector and a scalar
// that stands for each of the three components. Every operand form gives the
// same components.

impl<S: Scalar> Add<Vector<S>> for Vector<S> {
    type Output = Vector<S>;

    fn add(self, rhs: Vector<S>) -> (r: Vector<S>) {
        Vector { x: S::add(self.x, rhs.x), y: S::add(self.y, rhs.y), z: S::add(self.z, rhs.z) }
    }
}

impl<S: Scalar> vstd::std_specs::ops::AddSpecImpl<Vector<S>> for Vector<S> {
    open spec fn obeys_add_spec() -> bool {
        true
    }

    open spec fn add_req(self, rhs: Vector<S>) -> bool {
        true
    }

    open spec fn add_spec(self, rhs: Vector<S>) -> Vector<S> {
        self.spec_plus(rhs)
    }
}

impl<S: Scalar> Add<S> for Vector<S> {
    type Output = Vector<S>;

    fn add(self, rhs: S) -> (r: Vector<S>) {
        Vector { x: S::add(self.x, rhs), y: S::add(self.y, rhs), z: S::add(self.z, rhs) }
    }
}

impl<S: Scalar> vstd::std_specs::ops::AddSpecImpl<S> for Vector<S> {
    open spec fn obeys_add_spec() -> bool {
        true
    }

    open spec fn add_req(self, rhs: S) -> bool {
        true
    }

    open spec fn add_spec(self, rhs: S) -> Vector<S> {
        self.spec_plus_scalar(rhs)
    }
}

impl<'a, 'b, S: Scalar> Add<&'b Vector<S>> for &'a Vector<S> {
    type Output = Vector<S>;

    fn add(self, rhs: &'b Vector<S>) -> (r: Vector<S>) {
        Vector { x: S::add(self.x, rhs.x), y: S::add(self.y, rhs.y), z: S::add(self.z, rhs.z) }
    }
}

impl<'a, 'b, S: Scalar> vstd::std_specs::ops::AddSpecImpl<&'b Vector<S>> for &'a Vector<S> {
    open spec fn obeys_add_spec() -> bool {
        true
    }

    open spec fn add_req(self, rhs: &'b Vector<S>) -> bool {
        true
    }

    open spec fn add_spec(self, rhs: &'b Vector<S>) -> Vector<S> {
        (*self).spec_plus(*rhs)
    }
}

impl<'a, S: Scalar> Add<S> for &'a Vector<S> {
    type Output = Vector<S>;

    fn add(self, rhs: S) -> (r: Vector<S>) {
        Vector { x: S::add(self.x, rhs), y: S::add(self.y, rhs), z: S::add(self.z, rhs) }
    }
}

impl<'a, S: Scalar> vstd::std_specs::ops::AddSpecImpl<S> for &'a Vector<S> {
    open spec fn obeys_add_spec() -> bool {
        true
    }

    open spec fn add_req(self, rhs: S) -> bool {
        true
    }

    open spec fn add_spec(self, rhs: S) -> Vector<S> {
        (*self).spec_plus_scalar(rhs)
    }
}

impl<'a, 'b, S: Scalar> Add<&'b mut Vector<S>> for &'a mut Vector<S> {
    type Output = Vector<S>;

    fn add(self, rhs: &'b mut Vector<S>) -> (r: Vector<S>)
        ensures
            *final(self) == *old(self),
            *final(rhs) == *old(rhs),
    {
        Vector { x: S::add(self.x, rhs.x), y: S::add(self.y, rhs.y), z: S::add(self.z, rhs.z) }
    }
}

impl<'a, 'b, S: Scalar> vstd::std_specs::ops::AddSpecImpl<&'b mut Vector<S>> for &'a mut Vector<S> {
    open spec fn obeys_add_spec() -> bool {
        true
    }

    open spec fn add_req(self, rhs: &'b mut Vector<S>) -> bool {
        true
    }

    open spec fn add_spec(self, rhs: &'b mut Vector<S>) -> Vector<S> {
        (*self).spec_plus(*rhs)
    }
}

impl<'a, S: Scalar> Add<S> for &'a mut Vector<S> {
    type Output = Vector<S>;

    fn add(self, rhs: S) -> (r: Vector<S>)
        ensures
            *final(self) == *old(self),
    {
        Vector { x: S::add(self.x, rhs), y: S::add(self.y, rhs), z: S::add(self.z, rhs) }
    }
}

impl<'a, S: Scalar> vstd::std_specs::ops::AddSpecImpl<S> for &'a mut Vector<S> {
    open spec fn obeys_add_spec() -> bool {
        true
    }

    open spec fn add_req(self, rhs: S) -> bool {
        true
    }

    open spec fn add_spec(self, rhs: S) -> Vector<S> {
        (*self).spec_plus_scalar(rhs)
    }
}

impl<S: Scalar> AddAssign<Vector<S>> for Vector<S> {
    fn add_assign(&mut self, rhs: Vector<S>)
        ensures
            *final(self) == old(self).spec_plus(rhs),
    {
        self.x = S::add(self.x, rhs.x);
        self.y = S::add(self.y, rhs.y);
        self.z = S::add(self.z, rhs.z);
    }
}

impl<S: Scalar> AddAssign<S> for Vector<S> {
    fn add_assign(&mut self, rhs: S)
        ensures
            *final(self) == old(self).spec_plus_scalar(rhs),
    {
        self.x = S::add(self.x, rhs);
        self.y = S::add(self.y, rhs);
        self.z = S::add(self.z, rhs);
    }
}

impl<'a, S: Scalar> AddAssign<&'a Vector<S>> for Vector<S> {
    fn add_assign(&mut self, rhs: &'a Vector<S>)
        ensures
            *final(self) == old(self).spec_plus(*rhs),
    {
        self.x = S::add(self.x, rhs.x);
        self.y = S::add(self.y, rhs.y);
        self.z = S::add(self.z, rhs.z);
    }
}

impl<'a, S: Scalar> AddAssign<&'a mut Vector<S>> for Vector<S> {
    fn add_assign(&mut self, rhs: &'a mut Vector<S>)
        ensures
            *final(self) == old(self).spec_plus(*old(rhs)),
            *final(rhs) == *old(rhs),
    {
        self.x = S::add(self.x, rhs.x);
        self.y = S::add(self.y, rhs.y);
        self.z = S::add(self.z, rhs.z);
    }
}

} // verus!
