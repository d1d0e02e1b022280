//! Where an object stands and how it is turned.
//!
//! Turning an object multiplies two quaternions, which is rounding
//! arithmetic: the caller hands [`Transform::rotate_by`] the function that
//! multiplies, and the transform decides which factor goes where.

use crate::scalar::{Scalar, Vector3};
use vstd::prelude::*;

verus! {

/// A rotation, as a quaternion: a scalar part and a vector part.
#[derive(Clone, Copy, Debug, PartialEq, Eq, Structural)]
pub struct Quaternion {
    pub s: Scalar,
    pub v: Vector3,
}

/// What a [`Transform`] holds.
#[derive(Clone, Copy, Debug, PartialEq, Eq, Structural)]
pub struct TransformView {
    pub position: Vector3,
    pub rotation: Quaternion,
}

impl TransformView {
    /// The transform turned by `rotation`, where `product` multiplies two
    /// quaternions. The rotation given is the left factor, so it acts in
    /// the space of the world, not in that of the object.
    pub open spec fn rotated_by(
        self,
        rotation: Quaternion,
        product: spec_fn(Quaternion, Quaternion) -> Quaternion,
    ) -> TransformView {
        TransformView { rotation: product(rotation, self.rotation), ..self }
    }
}

/// Whether `product` says what `multiply` returns.
pub open spec fn computes<F: Fn(Quaternion, Quaternion) -> Quaternion>(
    multiply: F,
    product: spec_fn(Quaternion, Quaternion) -> Quaternion,
) -> bool {
    forall|left: Quaternion, right: Quaternion, result: Quaternion|
        #[trigger] call_ensures(multiply, (left, right), result) ==> result == product(left, right)
}

/// The position and the orientation of an object in the world.
#[derive(Clone, Copy, Debug)]
pub struct Transform {
    position: Vector3,
    rotation: Quaternion,
}

impl View for Transform {
    type V = TransformView;

    closed spec fn view(&self) -> TransformView {
        TransformView { position: self.position, rotation: self.rotation }
    }
}

impl Transform {
    /// An object at `position`, turned by `rotation`.
    pub fn new(position: Vector3, rotation: Quaternion) -> (transform: Transform)
        ensures
            transform@ == (TransformView { position, rotation }),
    {
        Transform { position, rotation }
    }

    /// Everything the transform holds, as one value.
    pub fn parameters(&self) -> (parameters: TransformView)
        ensures
            parameters == self@,
    {
        TransformView { position: self.position, rotation: self.rotation }
    }

    /// Turns the object by `rotation`.
    ///
    /// `multiply` is called once, with `rotation` on the left and the
    /// orientation so far on the right, and what it returns is the new
    /// orientation. The position stays. Where `multiply` is a function, of
    /// which `product` says what it returns, the transform afterwards is
    /// [`TransformView::rotated_by`] of the one before.
    pub fn rotate_by<F: Fn(Quaternion, Quaternion) -> Quaternion>(
        &mut self,
        rotation: Quaternion,
        multiply: F,
    )
        requires
            call_requires(multiply, (rotation, old(self)@.rotation)),
        ensures
            call_ensures(multiply, (rotation, old(self)@.rotation), final(self)@.rotation),
            final(self)@.position == old(self)@.position,
            forall|product: spec_fn(Quaternion, Quaternion) -> Quaternion|
                computes(multiply, product) ==> final(self)@ == #[trigger] old(self)@.rotated_by(
                    rotation,
                    product,
                ),
    {
        self.rotation = multiply(rotation, self.rotation);
    }
}

/// Two turns in a row, by `first` and then by `second`, leave the product
/// of `second` with the product of `first` and the orientation at the
/// start: each turn goes to the left of what was there.
pub proof fn lemma_rotations_compose_from_the_left(
    transform: TransformView,
    first: Quaternion,
    second: Quaternion,
    product: spec_fn(Quaternion, Quaternion) -> Quaternion,
)
    ensures
        transform.rotated_by(first, product).rotated_by(second, product).rotation == product(
            second,
            product(first, transform.rotation),
        ),
        transform.rotated_by(first, product).rotated_by(second, product).position
            == transform.position,
{
}

} // verus!
