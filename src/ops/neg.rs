use crate::scalar::Scalar;
use crate::vector::Vector;
use core::ops::Neg;
use vstd::prelude::*;

verus! {

// Negation of every component, for each operand form.

impl<S: Scalar> Neg for Vector<S> {
    type Output = Vector<S>;

    fn neg(self) -> (r: Vector<S>) {
        Vector { x: S::neg(self.x), y: S::neg(self.y), z: S::neg(self.z) }
    }
}

impl<S: Scalar> vstd::std_specs::ops::NegSpecImpl for Vector<S> {
    open spec fn obeys_neg_spec() -> bool {
        true
    }

    open spec fn neg_req(self) -> bool {
        true
    }

    open spec fn neg_spec(self) -> Vector<S> {
        self.spec_negated()
    }
}

impl<'a, S: Scalar> Neg for &'a Vector<S> {
    type Output = Vector<S>;

    fn neg(self) -> (r: Vector<S>) {
        Vector { x: S::neg(self.x), y: S::neg(self.y), z: S::neg(self.z) }
    }
}

impl<'a, S: Scalar> vstd::std_specs::ops::NegSpecImpl for &'a Vector<S> {
    open spec fn obeys_neg_spec() -> bool {
        true
    }

    open spec fn neg_req(self) -> bool {
        true
    }

    open spec fn neg_spec(self) -> Vector<S> {
        (*self).spec_negated()
    }
}

impl<'a, S: Scalar> Neg for &'a mut Vector<S> {
    type Output = Vector<S>;

    fn neg(self) -> (r: Vector<S>)
        ensures
            *final(self) == *old(self),
    {
        Vector { x: S::neg(self.x), y: S::neg(self.y), z: S::neg(self.z) }
    }
}

impl<'a, S: Scalar> vstd::std_specs::ops::NegSpecImpl for &'a mut Vector<S> {
    open spec fn obeys_neg_spec() -> bool {
        true
    }

    open spec fn neg_req(self) -> bool {
        true
    }

    open spec fn neg_spec(self) -> Vector<S> {
        (*self).spec_negated()
    }
}

} // verus!
