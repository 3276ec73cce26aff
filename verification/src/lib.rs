//! An offline Monte-Carlo path tracer over deterministic fixed-point
//! arithmetic.
//!
//! Scene geometry, shading and the integrator all compute on `Fx`, a
//! saturating Q47.16 fixed-point scalar, so every stage of the renderer has an
//! exact mathematical model and rendering is a pure function of the scene,
//! the camera and a sampler seed.

pub mod fx;
pub mod rng;
pub mod vec3;
pub mod interval;
pub mod ray;
pub mod aabb;
pub mod solid_texture;
pub mod checker_texture;
pub mod image_texture;
pub mod texture;
pub mod hit_record;
pub mod material;
pub mod shared;
pub mod sphere;
pub mod quad;
pub mod hittable;
pub mod hittable_list;
pub mod bvh_node;
pub mod affine_transforms;
pub mod constant_medium;
pub mod color;
pub mod camera;
pub mod laws;
pub mod perlin;
pub mod noise_texture;
pub mod scenes;
