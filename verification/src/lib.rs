//! A ray-traced renderer over exact fixed-point arithmetic.
//!
//! The crate computes a per-pixel color for a scene of geometric primitives
//! (spheres, planes, triangles, composite cubes), point lights and Phong-style
//! materials by simulating light transport along camera rays: direct
//! illumination with shadow rays, Fresnel-weighted specular reflection and
//! Fresnel-weighted refraction, up to a bounded recursion depth.
//!
//! All scalar quantities are [`fixed::Fx`] values: signed fixed-point numbers
//! with a binary scale, so every arithmetic step is exact and deterministic.
//! This makes the central caching structure, the ray forest, provably sound:
//! reducing a cached ray tree yields exactly the color that a direct trace of
//! the same ray yields.

pub mod cli;
pub mod color;
pub mod cube;
pub mod fixed;
pub mod intersection;
pub mod material;
pub mod matrix;
pub mod plane;
pub mod point;
pub mod ray;
pub mod render;
pub mod render_tree;
pub mod scene;
pub mod sphere;
pub mod triangle;
pub mod vector3;
