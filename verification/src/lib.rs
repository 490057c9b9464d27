//! An offline Monte Carlo path tracer with a verified rendering core.
//!
//! Scenes of spheres and planes with diffuse, metallic and glass materials
//! are rendered by sampling many random rays per pixel and recursively
//! simulating light transport. All geometry runs on a saturating fixed-point
//! scalar, so every stage (intersection, the nearest-hit scan, material
//! scattering, camera setup and color quantization) carries an exact
//! machine-checked contract. Randomness enters only through the sampler,
//! which can be seeded to make renders reproducible.

pub mod camera;
pub mod color;
pub mod framebuffer;
pub mod fx;
pub mod geometry;
pub mod hittable;
pub mod hittables;
pub mod interval;
pub mod materials;
pub mod plane;
pub mod ray;
pub mod sampler;
pub mod sphere;
pub mod triangle;
pub mod trig;
pub mod vector3;
pub mod world;
