//! The record of one ray-surface intersection.

use vstd::prelude::*;

use crate::fixed::Fx;
use crate::point::Point3;
use crate::vector3::Vector3;

verus! {

/// Texture coordinates on a surface.
pub type TextureCoords = (Fx, Fx);

/// An index into a scene's material arena. Primitives store the index rather
/// than a shared handle, so one edit of an arena entry reaches every
/// primitive that wears it.
pub type MaterialId = usize;

/// Everything the shading code needs to know about one ray-surface hit.
#[derive(Clone, Copy, Debug, PartialEq)]
pub struct Intersection {
    /// The scene-level identifier of the primitive that was hit.
    pub id: i32,
    /// The ray parameter of the hit.
    pub t: Fx,
    /// The arena index of the surface material.
    pub material: MaterialId,
    /// The hit point in world space.
    pub point: Point3,
    /// The unit direction from the hit point back toward the eye.
    pub eye_dir: Vector3,
    /// The surface normal at the hit point.
    pub normal: Vector3,
    /// Whether the ray was moving into the surface rather than out of it.
    pub entering: bool,
    /// Texture coordinates at the hit point.
    pub tex_coord: TextureCoords,
}

} // verus!
