//! Transforms, rays and keyframes.
//!
//! The library decides which keyframes are blended, in which order the
//! levels of a hierarchy are composed, and how a hit is carried from
//! an instance's local space back to world space. The arithmetic on
//! coordinates is left to an implementation of [`Transform`]; each
//! operation has a spec function that names its result, and the
//! contracts of the library are stated over those names.

use crate::geometry::BoundingBox;
use vstd::prelude::*;

pub mod animated_transform;
pub mod model;

verus! {

/// A ray: the points `o + t * d` for `t` from `min_t` to `max_t`.
#[derive(Clone, Copy, Debug, PartialEq)]
pub struct Ray<P, V, S> {
    /// The origin.
    pub o: P,
    /// The direction.
    pub d: V,
    /// The least parameter at which a hit counts.
    pub min_t: S,
    /// The greatest parameter at which a hit counts. A hit lowers it
    /// to the hit's own parameter.
    pub max_t: S,
}

/// A pose that holds at one instant.
#[derive(Clone, Copy, Debug, PartialEq)]
pub struct Keyframe<P> {
    /// The instant, in ticks.
    pub time: i64,
    /// The data that defines the transform at that instant.
    pub pose: P,
}

/// An invertible affine transform, with what it acts on.
pub trait Transform: Sized {
    /// A parameter along a ray.
    type Scalar;

    /// A position.
    type Point;

    /// A displacement.
    type Vector;

    /// A surface normal.
    type Normal;

    /// An axis-aligned box.
    type BBox: BoundingBox;

    /// The data of a keyframe.
    type Pose;

    /// The transform that moves nothing.
    spec fn identity_spec() -> Self;

    /// The transform that applies `inner` first and `self` after it.
    spec fn compose_spec(self, inner: Self) -> Self;

    /// The image of a point.
    spec fn point_spec(self, p: Self::Point) -> Self::Point;

    /// The image of a vector.
    spec fn vector_spec(self, v: Self::Vector) -> Self::Vector;

    /// The image of a normal, which goes by the inverse transpose.
    spec fn normal_spec(self, n: Self::Normal) -> Self::Normal;

    /// A box around the image of a box.
    spec fn box_spec(self, b: Self::BBox) -> Self::BBox;

    /// The preimage of a ray: its origin, direction and both bounds
    /// taken through the inverse.
    spec fn inv_ray_spec(self, ray: Ray<Self::Point, Self::Vector, Self::Scalar>) -> Ray<
        Self::Point,
        Self::Vector,
        Self::Scalar,
    >;

    /// The transform that a pose defines.
    spec fn pose_spec(pose: Self::Pose) -> Self;

    /// The blend of two keyframes at an instant between them.
    spec fn interpolate_spec(
        time: i64,
        first: Keyframe<Self::Pose>,
        second: Keyframe<Self::Pose>,
    ) -> Self;

    /// Composing with the identity on the right changes nothing.
    proof fn compose_identity(t: Self)
        ensures
            t.compose_spec(Self::identity_spec()) == t,
    ;

    /// At the instant of the later keyframe the blend is that
    /// keyframe's own transform.
    proof fn interpolate_at_second(first: Keyframe<Self::Pose>, second: Keyframe<Self::Pose>)
        requires
            first.time < second.time,
        ensures
            Self::interpolate_spec(second.time, first, second) == Self::pose_spec(second.pose),
    ;

    /// Makes the identity.
    fn identity() -> (r: Self)
        ensures
            r == Self::identity_spec(),
    ;

    /// Composes two transforms: `inner` acts first.
    fn compose(&self, inner: &Self) -> (r: Self)
        ensures
            r == self.compose_spec(*inner),
    ;

    /// Maps a point.
    fn apply_point(&self, p: &Self::Point) -> (r: Self::Point)
        ensures
            r == self.point_spec(*p),
    ;

    /// Maps a vector.
    fn apply_vector(&self, v: &Self::Vector) -> (r: Self::Vector)
        ensures
            r == self.vector_spec(*v),
    ;

    /// Maps a normal.
    fn apply_normal(&self, n: &Self::Normal) -> (r: Self::Normal)
        ensures
            r == self.normal_spec(*n),
    ;

    /// Maps a box.
    fn apply_box(&self, b: &Self::BBox) -> (r: Self::BBox)
        ensures
            r == self.box_spec(*b),
    ;

    /// Takes a ray through the inverse.
    fn inv_mul_ray(&self, ray: &Ray<Self::Point, Self::Vector, Self::Scalar>) -> (r: Ray<
        Self::Point,
        Self::Vector,
        Self::Scalar,
    >)
        ensures
            r == self.inv_ray_spec(*ray),
    ;

    /// Makes the transform of a pose.
    fn from_pose(pose: &Self::Pose) -> (r: Self)
        ensures
            r == Self::pose_spec(*pose),
    ;

    /// Blends two keyframes at an instant after the first and not
    /// after the second.
    fn interpolate(
        time: i64,
        first: &Keyframe<Self::Pose>,
        second: &Keyframe<Self::Pose>,
    ) -> (r: Self)
        requires
            first.time < time <= second.time,
        ensures
            r == Self::interpolate_spec(time, *first, *second),
    ;
}

impl<P> Keyframe<P> {
    /// The transform that this keyframe's pose defines.
    pub fn transform<T: Transform<Pose = P>>(&self) -> (r: T)
        ensures
            r == T::pose_spec(self.pose),
    {
        T::from_pose(&self.pose)
    }
}

} // verus!
