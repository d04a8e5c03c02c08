//! A small ray-tracing engine over fixed-point arithmetic.
//!
//! Scalars are signed 64-bit fixed-point numbers with a decimal scale of
//! one million, so every arithmetic step has an exact integer meaning that
//! the contracts state in full.

pub mod fixed;
pub mod rng;
pub mod vec3;
pub mod ray;
pub mod hittable;
pub mod material;
pub mod sphere;
pub mod hittable_list;
pub mod trig;
pub mod camera;
pub mod color;
pub mod render;
pub mod utils;

pub use fixed::Fix;
