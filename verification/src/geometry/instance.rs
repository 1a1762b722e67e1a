//! Instances of geometry in a scene.
//!
//! An instance places a shared shape in the world with a transform,
//! a material and a tag of its own. A ray is tested in the shape's
//! local space, and what it hits is carried back to world space.

use crate::geometry::{DifferentialGeometry, Geometry, Intersection};
use crate::linalg::{Ray, Transform};
use std::sync::Arc;
use vstd::prelude::*;

verus! {

/// The surface at a hit, carried from local space to world space by
/// the placement: the point and the two derivatives as such, the
/// normals by the rule for normals.
pub open spec fn to_world<T: Transform>(
    placement: T,
    dg: DifferentialGeometry<T::Point, T::Vector, T::Normal>,
) -> DifferentialGeometry<T::Point, T::Vector, T::Normal> {
    DifferentialGeometry {
        p: placement.point_spec(dg.p),
        n: placement.normal_spec(dg.n),
        ng: placement.normal_spec(dg.ng),
        dp_du: placement.vector_spec(dg.dp_du),
        dp_dv: placement.vector_spec(dg.dp_dv),
    }
}

/// What a ray in world space hits of a shape under a placement: the
/// ray goes through the inverse of the placement, the shape is tested
/// in its local space, and the surface at the hit comes back through
/// the placement. The parameter of the hit is that of the local ray.
pub open spec fn placed_hit<T: Transform, G: Geometry<T>>(
    geom: G,
    placement: T,
    ray: Ray<T::Point, T::Vector, T::Scalar>,
) -> Option<(DifferentialGeometry<T::Point, T::Vector, T::Normal>, T::Scalar)> {
    match geom.hit(placement.inv_ray_spec(ray)) {
        Some((dg, t)) => Some((to_world(placement, dg), t)),
        None => None,
    }
}

/// The ray after a test: a hit lowers `max_t` to the parameter of the
/// hit, a miss leaves the ray as it was.
pub open spec fn ray_after<T: Transform>(
    ray: Ray<T::Point, T::Vector, T::Scalar>,
    hit: Option<(DifferentialGeometry<T::Point, T::Vector, T::Normal>, T::Scalar)>,
) -> Ray<T::Point, T::Vector, T::Scalar> {
    match hit {
        Some((_, t)) => Ray { o: ray.o, d: ray.d, min_t: ray.min_t, max_t: t },
        None => ray,
    }
}

/// The box in world space around a shape under a placement.
pub open spec fn placed_bounds<T: Transform, G: Geometry<T>>(geom: G, placement: T) -> T::BBox {
    placement.box_spec(geom.bounds_spec())
}

/// A hit in local space is a hit in world space: where the shape
/// reports a surface for the local ray, the instance reports that
/// surface carried through the placement, its point being the image
/// of the local point, and the world ray's `max_t` becomes the
/// parameter that the shape gave.
pub proof fn hit_round_trip<T: Transform, G: Geometry<T>>(
    geom: G,
    placement: T,
    ray: Ray<T::Point, T::Vector, T::Scalar>,
    local: DifferentialGeometry<T::Point, T::Vector, T::Normal>,
    t: T::Scalar,
)
    requires
        geom.hit(placement.inv_ray_spec(ray)) == Some((local, t)),
    ensures
        placed_hit(geom, placement, ray) == Some((to_world(placement, local), t)),
        to_world(placement, local).p == placement.point_spec(local.p),
        ray_after::<T>(ray, placed_hit(geom, placement, ray)).max_t == t,
{
}

/// A miss in local space is a miss in world space, and leaves the
/// world ray as it was, its `max_t` too.
pub proof fn miss_leaves_ray<T: Transform, G: Geometry<T>>(
    geom: G,
    placement: T,
    ray: Ray<T::Point, T::Vector, T::Scalar>,
)
    requires
        geom.hit(placement.inv_ray_spec(ray)) is None,
    ensures
        placed_hit(geom, placement, ray) is None,
        ray_after::<T>(ray, placed_hit(geom, placement, ray)) == ray,
{
}

/// Tests a ray in world space against a shape under a placement.
fn intersect_placed<T: Transform, G: Geometry<T>>(
    geom: &G,
    placement: &T,
    ray: &mut Ray<T::Point, T::Vector, T::Scalar>,
) -> (r: Option<DifferentialGeometry<T::Point, T::Vector, T::Normal>>)
    ensures
        r == match placed_hit(*geom, *placement, *old(ray)) {
            Some((dg, _)) => Some(dg),
            None => None,
        },
        *final(ray) == ray_after::<T>(*old(ray), placed_hit(*geom, *placement, *old(ray))),
{
    let mut local = placement.inv_mul_ray(ray);
    let dg = match geom.intersect(&mut local) {
        Some(dg) => dg,
        None => return None,
    };
    ray.max_t = local.max_t;
    Some(
        DifferentialGeometry {
            p: placement.apply_point(&dg.p),
            n: placement.apply_normal(&dg.n),
            ng: placement.apply_normal(&dg.ng),
            dp_du: placement.apply_vector(&dg.dp_du),
            dp_dv: placement.apply_vector(&dg.dp_dv),
        },
    )
}

/// An instance of geometry in the scene that only receives light.
pub struct Receiver<T: Transform, G: Geometry<T>, M> {
    /// The geometry that is instanced.
    geom: Arc<G>,
    /// The material of this instance.
    pub material: Arc<M>,
    /// The placement: the transform to world space.
    transform: T,
    /// A tag that identifies the instance.
    pub tag: String,
}

impl<T: Transform, G: Geometry<T>, M> Receiver<T, G, M> {
    /// The shape that is instanced.
    pub closed spec fn geometry(&self) -> G {
        *self.geom
    }

    /// The transform from the shape's local space to world space.
    pub closed spec fn placement(&self) -> T {
        self.transform
    }

    /// The material of the instance.
    pub closed spec fn material(&self) -> Arc<M> {
        self.material
    }

    /// The tag of the instance.
    pub closed spec fn tag(&self) -> Seq<char> {
        self.tag@
    }

    /// Makes an instance of a shape.
    pub fn new(geom: Arc<G>, material: Arc<M>, transform: T, tag: &str) -> (r: Receiver<T, G, M>)
        ensures
            r.geometry() == *geom,
            r.placement() == transform,
            r.material() == material,
            r.tag() == tag@,
    {
        Receiver { geom, material, transform, tag: tag.to_string() }
    }

    /// Tests a ray for a hit on this instance. On a hit the ray's
    /// `max_t` is the parameter of the hit; on a miss the ray is as it
    /// was.
    pub fn intersect(&self, ray: &mut Ray<T::Point, T::Vector, T::Scalar>) -> (r: Option<
        (DifferentialGeometry<T::Point, T::Vector, T::Normal>, &M),
    >)
        ensures
            r == match placed_hit(self.geometry(), self.placement(), *old(ray)) {
                Some((dg, _)) => Some((dg, &*self.material())),
                None => None,
            },
            *final(ray) == ray_after::<T>(
                *old(ray),
                placed_hit(self.geometry(), self.placement(), *old(ray)),
            ),
    {
        match intersect_placed(&*self.geom, &self.transform, ray) {
            Some(dg) => Some((dg, &*self.material)),
            None => None,
        }
    }

    /// The box in world space around this instance.
    pub fn bounds(&self) -> (r: T::BBox)
        ensures
            r == placed_bounds(self.geometry(), self.placement()),
    {
        self.transform.apply_box(&self.geom.bounds())
    }
}

/// An instance of geometry in the scene that receives light and is
/// meant to emit it. It holds what a receiver holds, and is tested and
/// bounded as a receiver is.
pub struct Emitter<T: Transform, G: Geometry<T>, M> {
    /// The geometry that is instanced.
    geom: Arc<G>,
    /// The material of this instance.
    pub material: Arc<M>,
    /// The placement: the transform to world space.
    transform: T,
    /// A tag that identifies the instance.
    pub tag: String,
}

impl<T: Transform, G: Geometry<T>, M> Emitter<T, G, M> {
    /// The shape that is instanced.
    pub closed spec fn geometry(&self) -> G {
        *self.geom
    }

    /// The transform from the shape's local space to world space.
    pub closed spec fn placement(&self) -> T {
        self.transform
    }

    /// The material of the instance.
    pub closed spec fn material(&self) -> Arc<M> {
        self.material
    }

    /// The tag of the instance.
    pub closed spec fn tag(&self) -> Seq<char> {
        self.tag@
    }

    /// Makes an instance of a shape.
    pub fn new(geom: Arc<G>, material: Arc<M>, transform: T, tag: &str) -> (r: Emitter<T, G, M>)
        ensures
            r.geometry() == *geom,
            r.placement() == transform,
            r.material() == material,
            r.tag() == tag@,
    {
        Emitter { geom, material, transform, tag: tag.to_string() }
    }

    /// Tests a ray for a hit on this instance. On a hit the ray's
    /// `max_t` is the parameter of the hit; on a miss the ray is as it
    /// was.
    pub fn intersect(&self, ray: &mut Ray<T::Point, T::Vector, T::Scalar>) -> (r: Option<
        (DifferentialGeometry<T::Point, T::Vector, T::Normal>, &M),
    >)
        ensures
            r == match placed_hit(self.geometry(), self.placement(), *old(ray)) {
                Some((dg, _)) => Some((dg, &*self.material())),
                None => None,
            },
            *final(ray) == ray_after::<T>(
                *old(ray),
                placed_hit(self.geometry(), self.placement(), *old(ray)),
            ),
    {
        match intersect_placed(&*self.geom, &self.transform, ray) {
            Some(dg) => Some((dg, &*self.material)),
            None => None,
        }
    }

    /// The box in world space around this instance.
    pub fn bounds(&self) -> (r: T::BBox)
        ensures
            r == placed_bounds(self.geometry(), self.placement()),
    {
        self.transform.apply_box(&self.geom.bounds())
    }
}

/// An instance of some geometry, with a transform and a material of
/// its own.
pub enum Instance<T: Transform, G: Geometry<T>, M> {
    /// An instance that receives and emits light.
    Emitter(Emitter<T, G, M>),
    /// An instance that only receives light.
    Receiver(Receiver<T, G, M>),
}

impl<T: Transform, G: Geometry<T>, M> Instance<T, G, M> {
    /// The shape that is instanced.
    pub open spec fn geometry(&self) -> G {
        match self {
            Instance::Emitter(e) => e.geometry(),
            Instance::Receiver(r) => r.geometry(),
        }
    }

    /// The transform from the shape's local space to world space.
    pub open spec fn placement(&self) -> T {
        match self {
            Instance::Emitter(e) => e.placement(),
            Instance::Receiver(r) => r.placement(),
        }
    }

    /// The material of the instance.
    pub open spec fn material(&self) -> Arc<M> {
        match self {
            Instance::Emitter(e) => e.material(),
            Instance::Receiver(r) => r.material(),
        }
    }

    /// The tag of the instance.
    pub open spec fn tag(&self) -> Seq<char> {
        match self {
            Instance::Emitter(e) => e.tag(),
            Instance::Receiver(r) => r.tag(),
        }
    }

    /// What the instance reports for a ray in world space: the
    /// surface at the hit, in world space, with the ray's parameter
    /// there; nothing for a miss.
    pub open spec fn reports(&self, ray: Ray<T::Point, T::Vector, T::Scalar>) -> Option<
        (DifferentialGeometry<T::Point, T::Vector, T::Normal>, T::Scalar),
    > {
        placed_hit(self.geometry(), self.placement(), ray)
    }

    /// The box in world space around the instance.
    pub open spec fn world_bounds(&self) -> T::BBox {
        placed_bounds(self.geometry(), self.placement())
    }

    /// Makes an instance that only receives light.
    pub fn receiver(geom: Arc<G>, material: Arc<M>, transform: T, tag: &str) -> (r: Instance<
        T,
        G,
        M,
    >)
        ensures
            r is Receiver,
            r.geometry() == *geom,
            r.placement() == transform,
            r.material() == material,
            r.tag() == tag@,
    {
        Instance::Receiver(Receiver::new(geom, material, transform, tag))
    }

    /// Makes an instance that receives and emits light.
    pub fn emitter(geom: Arc<G>, material: Arc<M>, transform: T, tag: &str) -> (r: Instance<
        T,
        G,
        M,
    >)
        ensures
            r is Emitter,
            r.geometry() == *geom,
            r.placement() == transform,
            r.material() == material,
            r.tag() == tag@,
    {
        Instance::Emitter(Emitter::new(geom, material, transform, tag))
    }

    /// Tests a ray for a hit on this instance. A hit names the
    /// instance and its material, and the ray's `max_t` is then the
    /// parameter of the hit; on a miss the ray is as it was.
    pub fn intersect(&self, ray: &mut Ray<T::Point, T::Vector, T::Scalar>) -> (r: Option<
        Intersection<'_, T, G, M>,
    >)
        ensures
            r == match placed_hit(self.geometry(), self.placement(), *old(ray)) {
                Some((dg, _)) => Some(
                    Intersection { dg, instance: self, material: &*self.material() },
                ),
                None => None,
            },
            *final(ray) == ray_after::<T>(
                *old(ray),
                placed_hit(self.geometry(), self.placement(), *old(ray)),
            ),
    {
        let hit = match self {
            Instance::Emitter(e) => e.intersect(ray),
            Instance::Receiver(r) => r.intersect(ray),
        };
        match hit {
            Some((dg, mat)) => Some(Intersection::new(dg, self, mat)),
            None => None,
        }
    }

    /// The box in world space around this instance.
    pub fn bounds(&self) -> (r: T::BBox)
        ensures
            r == placed_bounds(self.geometry(), self.placement()),
    {
        match self {
            Instance::Emitter(e) => e.bounds(),
            Instance::Receiver(r) => r.bounds(),
        }
    }
}

/// Instances do not interfere: what an instance reports, and its
/// box, depend on its shape, its placement and the ray alone. So two
/// instances of one shape each report that shape under their own
/// placement, and their tags and materials play no part.
pub proof fn instances_do_not_interfere<T: Transform, G: Geometry<T>, M>(
    a: Instance<T, G, M>,
    b: Instance<T, G, M>,
    ray: Ray<T::Point, T::Vector, T::Scalar>,
)
    requires
        a.geometry() == b.geometry(),
    ensures
        a.reports(ray) == placed_hit(b.geometry(), a.placement(), ray),
        b.reports(ray) == placed_hit(a.geometry(), b.placement(), ray),
        a.world_bounds() == placed_bounds(b.geometry(), a.placement()),
        b.world_bounds() == placed_bounds(a.geometry(), b.placement()),
        a.placement() == b.placement() ==> a.reports(ray) == b.reports(ray) && a.world_bounds()
            == b.world_bounds(),
{
}

} // verus!
