use instancing::geometry::instance::{Instance, Receiver};
use instancing::geometry::{BoundingBox, DifferentialGeometry, Geometry};
use instancing::linalg::animated_transform::AnimatedTransform;
use instancing::linalg::{Keyframe, Ray, Transform};
use std::sync::Arc;

/// Instants are counted in thousandths of a second.
fn ticks(seconds: f32) -> i64 {
    (seconds * 1000.0).round() as i64
}

#[derive(Clone, Copy, Debug, PartialEq)]
struct V3 {
    x: f32,
    y: f32,
    z: f32,
}

fn v3(x: f32, y: f32, z: f32) -> V3 {
    V3 { x, y, z }
}

fn dot(a: V3, b: V3) -> f32 {
    a.x * b.x + a.y * b.y + a.z * b.z
}

type Matrix = [[f32; 4]; 4];

const UNIT: Matrix =
    [[1.0, 0.0, 0.0, 0.0], [0.0, 1.0, 0.0, 0.0], [0.0, 0.0, 1.0, 0.0], [0.0, 0.0, 0.0, 1.0]];

fn product(a: &Matrix, b: &Matrix) -> Matrix {
    let mut r = [[0.0f32; 4]; 4];
    for i in 0..4 {
        for j in 0..4 {
            for k in 0..4 {
                r[i][j] += a[i][k] * b[k][j];
            }
        }
    }
    r
}

fn on_point(m: &Matrix, p: V3) -> V3 {
    v3(
        m[0][0] * p.x + m[0][1] * p.y + m[0][2] * p.z + m[0][3],
        m[1][0] * p.x + m[1][1] * p.y + m[1][2] * p.z + m[1][3],
        m[2][0] * p.x + m[2][1] * p.y + m[2][2] * p.z + m[2][3],
    )
}

fn on_vector(m: &Matrix, v: V3) -> V3 {
    v3(
        m[0][0] * v.x + m[0][1] * v.y + m[0][2] * v.z,
        m[1][0] * v.x + m[1][1] * v.y + m[1][2] * v.z,
        m[2][0] * v.x + m[2][1] * v.y + m[2][2] * v.z,
    )
}

fn on_vector_transposed(m: &Matrix, v: V3) -> V3 {
    v3(
        m[0][0] * v.x + m[1][0] * v.y + m[2][0] * v.z,
        m[0][1] * v.x + m[1][1] * v.y + m[2][1] * v.z,
        m[0][2] * v.x + m[1][2] * v.y + m[2][2] * v.z,
    )
}

/// A box with its corners in floating point.
#[derive(Clone, Copy, Debug, PartialEq)]
struct Bounds {
    min: V3,
    max: V3,
}

impl BoundingBox for Bounds {
    fn empty_spec() -> Bounds {
        Bounds {
            min: v3(f32::INFINITY, f32::INFINITY, f32::INFINITY),
            max: v3(f32::NEG_INFINITY, f32::NEG_INFINITY, f32::NEG_INFINITY),
        }
    }

    fn union_spec(self, other: Bounds) -> Bounds {
        Bounds {
            min: v3(
                self.min.x.min(other.min.x),
                self.min.y.min(other.min.y),
                self.min.z.min(other.min.z),
            ),
            max: v3(
                self.max.x.max(other.max.x),
                self.max.y.max(other.max.y),
                self.max.z.max(other.max.z),
            ),
        }
    }

    fn encloses(self, other: Bounds) -> bool {
        let empty =
            other.min.x > other.max.x || other.min.y > other.max.y || other.min.z > other.max.z;
        empty
            || (self.min.x <= other.min.x
                && self.min.y <= other.min.y
                && self.min.z <= other.min.z
                && other.max.x <= self.max.x
                && other.max.y <= self.max.y
                && other.max.z <= self.max.z)
    }

    fn encloses_reflexive(_a: Bounds) {}

    fn encloses_transitive(_a: Bounds, _b: Bounds, _c: Bounds) {}

    fn union_encloses(_a: Bounds, _b: Bounds) {}

    fn empty() -> Bounds {
        Bounds::empty_spec()
    }

    fn box_union(&self, other: &Bounds) -> Bounds {
        self.union_spec(*other)
    }
}

/// A translation and a scale about the origin, the scale first.
#[derive(Clone, Copy, Debug, PartialEq)]
struct Pose {
    translation: V3,
    scale: f32,
}

/// An affine map with its inverse.
#[derive(Clone, Copy, Debug, PartialEq)]
struct Affine {
    m: Matrix,
    inv: Matrix,
}

impl Affine {
    fn translate(by: V3) -> Affine {
        let mut m = UNIT;
        let mut inv = UNIT;
        m[0][3] = by.x;
        m[1][3] = by.y;
        m[2][3] = by.z;
        inv[0][3] = -by.x;
        inv[1][3] = -by.y;
        inv[2][3] = -by.z;
        Affine { m, inv }
    }

    fn scale(by: f32) -> Affine {
        let mut m = UNIT;
        let mut inv = UNIT;
        for i in 0..3 {
            m[i][i] = by;
            inv[i][i] = 1.0 / by;
        }
        Affine { m, inv }
    }
}

fn mix(a: f32, b: f32, f: f32) -> f32 {
    (1.0 - f) * a + f * b
}

impl Transform for Affine {
    type Scalar = f32;
    type Point = V3;
    type Vector = V3;
    type Normal = V3;
    type BBox = Bounds;
    type Pose = Pose;

    fn identity_spec() -> Affine {
        Affine { m: UNIT, inv: UNIT }
    }

    fn compose_spec(self, inner: Affine) -> Affine {
        Affine { m: product(&self.m, &inner.m), inv: product(&inner.inv, &self.inv) }
    }

    fn point_spec(self, p: V3) -> V3 {
        on_point(&self.m, p)
    }

    fn vector_spec(self, v: V3) -> V3 {
        on_vector(&self.m, v)
    }

    fn normal_spec(self, n: V3) -> V3 {
        on_vector_transposed(&self.inv, n)
    }

    fn box_spec(self, b: Bounds) -> Bounds {
        let mut out = Bounds::empty();
        for corner in 0..8 {
            let p = v3(
                if corner & 1 == 0 { b.min.x } else { b.max.x },
                if corner & 2 == 0 { b.min.y } else { b.max.y },
                if corner & 4 == 0 { b.min.z } else { b.max.z },
            );
            let q = on_point(&self.m, p);
            out = out.box_union(&Bounds { min: q, max: q });
        }
        out
    }

    fn inv_ray_spec(self, ray: Ray<V3, V3, f32>) -> Ray<V3, V3, f32> {
        Ray {
            o: on_point(&self.inv, ray.o),
            d: on_vector(&self.inv, ray.d),
            min_t: ray.min_t,
            max_t: ray.max_t,
        }
    }

    fn pose_spec(pose: Pose) -> Affine {
        Affine::translate(pose.translation).compose_spec(Affine::scale(pose.scale))
    }

    fn interpolate_spec(time: i64, first: Keyframe<Pose>, second: Keyframe<Pose>) -> Affine {
        let f = (time - first.time) as f32 / (second.time - first.time) as f32;
        Affine::pose_spec(Pose {
            translation: v3(
                mix(first.pose.translation.x, second.pose.translation.x, f),
                mix(first.pose.translation.y, second.pose.translation.y, f),
                mix(first.pose.translation.z, second.pose.translation.z, f),
            ),
            scale: mix(first.pose.scale, second.pose.scale, f),
        })
    }

    fn compose_identity(_t: Affine) {}

    fn interpolate_at_second(_first: Keyframe<Pose>, _second: Keyframe<Pose>) {}

    fn identity() -> Affine {
        Affine::identity_spec()
    }

    fn compose(&self, inner: &Affine) -> Affine {
        self.compose_spec(*inner)
    }

    fn apply_point(&self, p: &V3) -> V3 {
        self.point_spec(*p)
    }

    fn apply_vector(&self, v: &V3) -> V3 {
        self.vector_spec(*v)
    }

    fn apply_normal(&self, n: &V3) -> V3 {
        self.normal_spec(*n)
    }

    fn apply_box(&self, b: &Bounds) -> Bounds {
        self.box_spec(*b)
    }

    fn inv_mul_ray(&self, ray: &Ray<V3, V3, f32>) -> Ray<V3, V3, f32> {
        self.inv_ray_spec(*ray)
    }

    fn from_pose(pose: &Pose) -> Affine {
        Affine::pose_spec(*pose)
    }

    fn interpolate(time: i64, first: &Keyframe<Pose>, second: &Keyframe<Pose>) -> Affine {
        Affine::interpolate_spec(time, *first, *second)
    }
}

/// A sphere about the origin of its local space.
struct Sphere {
    radius: f32,
}

impl Geometry<Affine> for Sphere {
    fn hit(&self, ray: Ray<V3, V3, f32>) -> Option<(DifferentialGeometry<V3, V3, V3>, f32)> {
        let a = dot(ray.d, ray.d);
        let b = 2.0 * dot(ray.o, ray.d);
        let c = dot(ray.o, ray.o) - self.radius * self.radius;
        let discriminant = b * b - 4.0 * a * c;
        if discriminant < 0.0 {
            return None;
        }
        let root = discriminant.sqrt();
        let near = (-b - root) / (2.0 * a);
        let far = (-b + root) / (2.0 * a);
        let t = if ray.min_t <= near && near <= ray.max_t {
            near
        } else if ray.min_t <= far && far <= ray.max_t {
            far
        } else {
            return None;
        };
        let p = v3(ray.o.x + t * ray.d.x, ray.o.y + t * ray.d.y, ray.o.z + t * ray.d.z);
        let n = v3(p.x / self.radius, p.y / self.radius, p.z / self.radius);
        Some((
            DifferentialGeometry {
                p,
                n,
                ng: n,
                dp_du: v3(-p.y, p.x, 0.0),
                dp_dv: v3(p.z * p.x, p.z * p.y, -(p.x * p.x + p.y * p.y)),
            },
            t,
        ))
    }

    fn bounds_spec(&self) -> Bounds {
        Bounds {
            min: v3(-self.radius, -self.radius, -self.radius),
            max: v3(self.radius, self.radius, self.radius),
        }
    }

    fn intersect(&self, ray: &mut Ray<V3, V3, f32>) -> Option<DifferentialGeometry<V3, V3, V3>> {
        match self.hit(*ray) {
            Some((dg, t)) => {
                ray.max_t = t;
                Some(dg)
            }
            None => None,
        }
    }

    fn bounds(&self) -> Bounds {
        self.bounds_spec()
    }
}

fn moved(seconds: f32, x: f32, y: f32, z: f32) -> Keyframe<Pose> {
    Keyframe { time: ticks(seconds), pose: Pose { translation: v3(x, y, z), scale: 1.0 } }
}

fn sized(seconds: f32, scale: f32) -> Keyframe<Pose> {
    Keyframe { time: ticks(seconds), pose: Pose { translation: v3(0.0, 0.0, 0.0), scale } }
}

#[test]
fn unit_sphere_under_the_identity_is_hit_at_distance_four() {
    let inst = Instance::receiver(
        Arc::new(Sphere { radius: 1.0 }),
        Arc::new("matte"),
        Affine::identity(),
        "ball",
    );
    let mut ray =
        Ray { o: v3(0.0, 0.0, -5.0), d: v3(0.0, 0.0, 1.0), min_t: 0.0, max_t: f32::INFINITY };
    let hit = inst.intersect(&mut ray).expect("the ray meets the sphere");
    assert_eq!(hit.dg.p, v3(0.0, 0.0, -1.0));
    assert_eq!(ray.max_t, 4.0);
    assert_eq!(hit.dg.n, v3(0.0, 0.0, -1.0));
    assert_eq!(*hit.material, "matte");
    assert!(std::ptr::eq(hit.instance, &inst));
}

#[test]
fn translation_keyframes_meet_halfway_at_half_time() {
    let a: AnimatedTransform<Affine> = AnimatedTransform::with_keyframes(vec![
        moved(0.0, 0.0, 0.0, 0.0),
        moved(1.0, 10.0, 0.0, 0.0),
    ]);
    let t = a.transform(ticks(0.5));
    assert_eq!(t.apply_point(&v3(0.0, 0.0, 0.0)), v3(5.0, 0.0, 0.0));
    assert_eq!(a.transform(ticks(0.0)).apply_point(&v3(0.0, 0.0, 0.0)), v3(0.0, 0.0, 0.0));
    assert_eq!(a.transform(ticks(1.0)).apply_point(&v3(0.0, 0.0, 0.0)), v3(10.0, 0.0, 0.0));
    assert_eq!(a.transform(ticks(-3.0)).apply_point(&v3(0.0, 0.0, 0.0)), v3(0.0, 0.0, 0.0));
    assert_eq!(a.transform(ticks(7.0)).apply_point(&v3(0.0, 0.0, 0.0)), v3(10.0, 0.0, 0.0));
}

#[test]
fn a_scaled_and_moved_sphere_is_hit_at_the_same_parameter() {
    let placement = Affine::translate(v3(0.0, 0.0, 10.0)).compose(&Affine::scale(2.0));
    let r = Receiver::new(Arc::new(Sphere { radius: 1.0 }), Arc::new(()), placement, "big");
    let mut ray =
        Ray { o: v3(0.0, 0.0, 0.0), d: v3(0.0, 0.0, 1.0), min_t: 0.0, max_t: f32::INFINITY };
    let (dg, _) = r.intersect(&mut ray).expect("the ray meets the sphere");
    assert_eq!(ray.max_t, 8.0);
    assert_eq!(dg.p, v3(0.0, 0.0, 8.0));
    assert_eq!(dg.n, v3(0.0, 0.0, -0.5));
    assert_eq!(dg.ng, v3(0.0, 0.0, -0.5));
    assert_eq!(
        r.bounds(),
        Bounds { min: v3(-2.0, -2.0, 8.0), max: v3(2.0, 2.0, 12.0) }
    );
}

#[test]
fn a_ray_that_passes_the_sphere_keeps_its_max_t() {
    let placement = Affine::translate(v3(0.0, 0.0, 10.0));
    let r = Receiver::new(Arc::new(Sphere { radius: 1.0 }), Arc::new(()), placement, "ball");
    let mut ray = Ray { o: v3(3.0, 0.0, 0.0), d: v3(0.0, 0.0, 1.0), min_t: 0.0, max_t: 99.5 };
    assert!(r.intersect(&mut ray).is_none());
    assert_eq!(ray.max_t, 99.5);
    let mut short = Ray { o: v3(0.0, 0.0, 0.0), d: v3(0.0, 0.0, 1.0), min_t: 0.0, max_t: 5.0 };
    assert!(r.intersect(&mut short).is_none());
    assert_eq!(short.max_t, 5.0);
}

#[test]
fn the_innermost_level_acts_first() {
    let grown: AnimatedTransform<Affine> = AnimatedTransform::with_keyframes(vec![sized(0.0, 2.0)]);
    let carried: AnimatedTransform<Affine> =
        AnimatedTransform::with_keyframes(vec![moved(0.0, 1.0, 0.0, 0.0)]);
    let p = v3(1.0, 0.0, 0.0);
    let grown_then_carried = grown.clone() * carried.clone();
    assert_eq!(grown_then_carried.transform(0).apply_point(&p), v3(3.0, 0.0, 0.0));
    let carried_then_grown = carried * grown;
    assert_eq!(carried_then_grown.transform(0).apply_point(&p), v3(4.0, 0.0, 0.0));
}

#[test]
fn grouping_of_a_hierarchy_does_not_matter() {
    let a: AnimatedTransform<Affine> =
        AnimatedTransform::with_keyframes(vec![sized(0.0, 1.0), sized(2.0, 3.0)]);
    let b: AnimatedTransform<Affine> = AnimatedTransform::with_keyframes(vec![
        moved(0.0, 0.0, 0.0, 0.0),
        moved(1.0, 4.0, -4.0, 2.0),
    ]);
    let c: AnimatedTransform<Affine> = AnimatedTransform::with_keyframes(vec![sized(0.5, 0.25)]);
    let left = (a.clone() * b.clone()) * c.clone();
    let right = a * (b * c);
    for i in -4..=12 {
        let t = ticks(i as f32 * 0.25);
        assert_eq!(left.transform(t), right.transform(t));
    }
}

#[test]
fn bounds_of_a_moving_box_enclose_both_ends() {
    let a: AnimatedTransform<Affine> = AnimatedTransform::with_keyframes(vec![
        moved(0.0, 0.0, 0.0, 0.0),
        moved(1.0, 10.0, -6.0, 3.0),
    ]);
    let b = Bounds { min: v3(-1.0, -1.0, -1.0), max: v3(1.0, 1.0, 1.0) };
    let swept = a.animation_bounds(&b, ticks(0.0), ticks(1.0));
    assert_eq!(swept, Bounds { min: v3(-1.0, -7.0, -1.0), max: v3(11.0, 1.0, 4.0) });
    assert!(swept.encloses(a.transform(ticks(0.0)).apply_box(&b)));
    assert!(swept.encloses(a.transform(ticks(1.0)).apply_box(&b)));
    let fixed: AnimatedTransform<Affine> =
        AnimatedTransform::with_keyframes(vec![moved(0.0, 2.0, 2.0, 2.0)]);
    assert_eq!(
        fixed.animation_bounds(&b, ticks(0.0), ticks(1.0)),
        Bounds { min: v3(1.0, 1.0, 1.0), max: v3(3.0, 3.0, 3.0) }
    );
}
