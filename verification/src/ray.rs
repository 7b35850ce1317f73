//! Rays: an origin point and a direction vector.

use vstd::prelude::*;

use crate::fixed::Fx;
use crate::point::{pt_add, Point3};
use crate::vector3::{vec_neg, vec_norm, vec_scale, Vector3};

verus! {

/// A half line through space. The direction need not be unit length; it is
/// normalized at the construction sites where the shading math requires it.
#[derive(Clone, Copy, Debug, PartialEq, Eq, Structural)]
pub struct Ray {
    pub origin: Point3,
    pub direction: Vector3,
}

/// The point at parameter `t` along the ray.
pub open spec fn ray_at(r: Ray, t: Fx) -> Point3 {
    pt_add(r.origin, vec_scale(r.direction, t))
}

/// The same ray with its direction reversed.
pub open spec fn ray_neg(r: Ray) -> Ray {
    Ray { origin: r.origin, direction: vec_neg(r.direction) }
}

/// The same ray with its direction normalized.
pub open spec fn ray_norm(r: Ray) -> Ray {
    Ray { origin: r.origin, direction: vec_norm(r.direction) }
}

impl Ray {
    /// The ray from `origin` along `direction`.
    pub fn new(origin: &Point3, direction: &Vector3) -> (r: Ray)
        ensures
            r == (Ray { origin: *origin, direction: *direction }),
    {
        Ray { origin: *origin, direction: *direction }
    }

    /// The origin point.
    pub fn origin(&self) -> (p: Point3)
        ensures
            p == self.origin,
    {
        self.origin
    }

    /// The direction vector.
    pub fn direction(&self) -> (v: Vector3)
        ensures
            v == self.direction,
    {
        self.direction
    }

    /// The same ray with its direction reversed.
    pub fn neg(&self) -> (r: Ray)
        ensures
            r == ray_neg(*self),
    {
        Ray { origin: self.origin, direction: self.direction.neg() }
    }

    /// The same ray with its direction normalized.
    pub fn norm(&self) -> (r: Ray)
        ensures
            r == ray_norm(*self),
    {
        Ray { origin: self.origin, direction: self.direction.norm() }
    }

    /// The point at parameter `t` along the ray.
    pub fn at(&self, t: Fx) -> (p: Point3)
        ensures
            p == ray_at(*self, t),
    {
        self.origin.add(&self.direction.scalar_mul(t))
    }
}

} // verus!
