//! Bounding boxes, the surface at a hit, and instances of geometry.

use crate::geometry::instance::Instance;
use crate::linalg::{Ray, Transform};
use vstd::prelude::*;

pub mod instance;

verus! {

/// An axis-aligned box, ordered by inclusion.
pub trait BoundingBox: Sized {
    /// The box that holds no point.
    spec fn empty_spec() -> Self;

    /// The least box that the kernel offers around both boxes.
    spec fn union_spec(self, other: Self) -> Self;

    /// Whether every point of `other` lies in `self`.
    spec fn encloses(self, other: Self) -> bool;

    /// A box encloses itself.
    proof fn encloses_reflexive(a: Self)
        ensures
            a.encloses(a),
    ;

    /// What encloses a box encloses all that the box encloses.
    proof fn encloses_transitive(a: Self, b: Self, c: Self)
        requires
            a.encloses(b),
            b.encloses(c),
        ensures
            a.encloses(c),
    ;

    /// A union encloses both of its operands.
    proof fn union_encloses(a: Self, b: Self)
        ensures
            a.union_spec(b).encloses(a),
            a.union_spec(b).encloses(b),
    ;

    /// Makes the empty box.
    fn empty() -> (r: Self)
        ensures
            r == Self::empty_spec(),
    ;

    /// Makes the union of two boxes.
    fn box_union(&self, other: &Self) -> (r: Self)
        ensures
            r == self.union_spec(*other),
    ;
}

/// The surface at a hit.
#[derive(Clone, Copy, Debug, PartialEq)]
pub struct DifferentialGeometry<P, V, N> {
    /// The point that was hit.
    pub p: P,
    /// The shading normal.
    pub n: N,
    /// The geometric normal.
    pub ng: N,
    /// The derivative of the point along the surface's first parameter.
    pub dp_du: V,
    /// The derivative of the point along the surface's second parameter.
    pub dp_dv: V,
}

/// A shape that rays can be tested against in its own local space.
///
/// `hit` names what a test reports; it is a function of the shape and
/// of the ray alone.
pub trait Geometry<T: Transform> {
    /// What a ray hits: the surface there with the ray's parameter at
    /// the hit, or nothing where the ray misses.
    spec fn hit(&self, ray: Ray<T::Point, T::Vector, T::Scalar>) -> Option<
        (DifferentialGeometry<T::Point, T::Vector, T::Normal>, T::Scalar),
    >;

    /// The box around the shape.
    spec fn bounds_spec(&self) -> T::BBox;

    /// Tests a ray against the shape. A hit lowers the ray's `max_t`
    /// to the parameter of the hit.
    fn intersect(&self, ray: &mut Ray<T::Point, T::Vector, T::Scalar>) -> (r: Option<
        DifferentialGeometry<T::Point, T::Vector, T::Normal>,
    >)
        ensures
            match self.hit(*old(ray)) {
                Some((dg, t)) => r == Some(dg) && final(ray).max_t == t,
                None => r is None,
            },
    ;

    /// Makes the box around the shape.
    fn bounds(&self) -> (r: T::BBox)
        ensures
            r == self.bounds_spec(),
    ;
}

/// A hit as the renderer sees it: the surface in world space, the
/// instance that was hit and the material in effect.
pub struct Intersection<'a, T: Transform, G: Geometry<T>, M> {
    /// The surface at the hit, in world space.
    pub dg: DifferentialGeometry<T::Point, T::Vector, T::Normal>,
    /// The instance that was hit.
    pub instance: &'a Instance<T, G, M>,
    /// The material of that instance.
    pub material: &'a M,
}

impl<'a, T: Transform, G: Geometry<T>, M> Intersection<'a, T, G, M> {
    /// Puts a hit together.
    pub fn new(
        dg: DifferentialGeometry<T::Point, T::Vector, T::Normal>,
        instance: &'a Instance<T, G, M>,
        material: &'a M,
    ) -> (r: Intersection<'a, T, G, M>)
        ensures
            r == (Intersection { dg, instance, material }),
    {
        Intersection { dg, instance, material }
    }
}

} // verus!
