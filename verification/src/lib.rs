//! Instancing of shared geometry, and transforms that are animated by
//! keyframes through a hierarchy of levels.
//!
//! - [`linalg`] holds rays, keyframes and the [`linalg::Transform`]
//!   kernel, and with them [`linalg::animated_transform`]: a transform
//!   that varies with time, evaluated level by level, and the bounds
//!   of a box that moves with it. [`linalg::model`] says in
//!   mathematical terms what such a transform is at an instant.
//! - [`geometry`] holds boxes, the surface at a hit and the
//!   [`geometry::Geometry`] of a shape, and with them
//!   [`geometry::instance`]: a shape placed in the world, tested in its
//!   local space and answered in world space.
//! - [`lattice`] is a kernel in exact arithmetic: translations on the
//!   integer lattice.
//!
//! Time is counted in ticks, an `i64`. Coordinates belong to the
//! kernel: the library never computes with them itself, it calls the
//! kernel and states its results over the kernel's spec functions.

pub mod geometry;
pub mod lattice;
pub mod linalg;
