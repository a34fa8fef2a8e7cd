use crate::scalar::Scalar;
use crate::vector::Vector;
use vstd::prelude::*;

verus! {

// Conversions to and from an ordered triple and a three-element array, always
// in the order `x`, `y`, `z`, with the components unchanged.

impl<S: Scalar> From<(S, S, S)> for Vector<S> {
    fn from(src: (S, S, S)) -> (r: Vector<S>) {
        Vector { x: src.0, y: src.1, z: src.2 }
    }
}

impl<S: Scalar> vstd::std_specs::convert::FromSpecImpl<(S, S, S)> for Vector<S> {
    open spec fn obeys_from_spec() -> bool {
        true
    }

    open spec fn from_spec(src: (S, S, S)) -> Vector<S> {
        Vector { x: src.0, y: src.1, z: src.2 }
    }
}

impl<S: Scalar> From<Vector<S>> for (S, S, S) {
    fn from(src: Vector<S>) -> (r: (S, S, S)) {
        (src.x, src.y, src.z)
    }
}

impl<S: Scalar> vstd::std_specs::convert::FromSpecImpl<Vector<S>> for (S, S, S) {
    open spec fn obeys_from_spec() -> bool {
        true
    }

    open spec fn from_spec(src: Vector<S>) -> (S, S, S) {
        (src.x, src.y, src.z)
    }
}

impl<S: Scalar> From<[S; 3]> for Vector<S> {
    fn from(src: [S; 3]) -> (r: Vector<S>) {
        Vector { x: src[0], y: src[1], z: src[2] }
    }
}

impl<S: Scalar> vstd::std_specs::convert::FromSpecImpl<[S; 3]> for Vector<S> {
    open spec fn obeys_from_spec() -> bool {
        true
    }

    open spec fn from_spec(src: [S; 3]) -> Vector<S> {
        Vector { x: src@[0], y: src@[1], z: src@[2] }
    }
}

impl<S: Scalar> From<Vector<S>> for [S; 3] {
    fn from(src: Vector<S>) -> (r: [S; 3]) {
        [src.x, src.y, src.z]
    }
}

impl<S: Scalar> vstd::std_specs::convert::FromSpecImpl<Vector<S>> for [S; 3] {
    open spec fn obeys_from_spec() -> bool {
        true
    }

    open spec fn from_spec(src: Vector<S>) -> [S; 3] {
        [src.x, src.y, src.z]
    }
}

} // verus!
