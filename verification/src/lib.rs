//! The deciding half of a path tracer: which root of an intersection counts,
//! which of several hits is nearest, when a surface absorbs, when a path
//! ends, and in which order pixels leave. The arithmetic on real numbers is
//! the caller's; numbers cross this boundary as bit patterns.
pub mod camera;
pub mod hittable;
pub mod hittable_list;
pub mod material;
pub mod ray;
pub mod scalar;
pub mod sphere;
pub mod utils;
pub mod vec3;
