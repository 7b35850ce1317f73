//! The infinite plane primitive.

use vstd::prelude::*;

use crate::fixed::{fdiv, fneg, Fx};
use crate::intersection::{Intersection, MaterialId};
use crate::matrix::{mat_det, mat_identity, mat_inverse, mat_ray_mul, mat_vec3_mul, Matrix};
use crate::point::{pt_sub, Point3};
use crate::ray::{ray_at, Ray};
use crate::vector3::{vec_cross, vec_dot, vec_len2, vec_neg, vec_norm, Vector3};

verus! {

/// An infinite plane through `origin` with unit normal `normal`, placed by
/// `transform`. `u` and `v` form a local orthonormal basis used for texture
/// coordinates.
#[derive(Clone, Copy, Debug, PartialEq)]
pub struct Plane {
    pub origin: Point3,
    pub normal: Vector3,
    pub material: MaterialId,
    pub transform: Matrix,
    pub inv_transform: Matrix,
    pub u: Vector3,
    pub v: Vector3,
}

/// The helper axis for the texture basis: the y axis where the normal is
/// colinear with the x axis, else the x axis.
pub open spec fn plane_basis_w(normal: Vector3) -> Vector3 {
    if vec_len2(vec_cross(normal, unit_x())).raw == 0 {
        unit_y()
    } else {
        unit_x()
    }
}

/// The unit x axis.
pub open spec fn unit_x() -> Vector3 {
    Vector3 { x: Fx { raw: 65536 }, y: Fx { raw: 0 }, z: Fx { raw: 0 } }
}

/// The unit y axis.
pub open spec fn unit_y() -> Vector3 {
    Vector3 { x: Fx { raw: 0 }, y: Fx { raw: 65536 }, z: Fx { raw: 0 } }
}

/// First texture axis: the normalized cross of the normal and the helper.
pub open spec fn plane_basis_u(normal: Vector3) -> Vector3 {
    vec_norm(vec_cross(normal, plane_basis_w(normal)))
}

/// Second texture axis: the normalized cross of the normal and the first.
pub open spec fn plane_basis_v(normal: Vector3) -> Vector3 {
    vec_norm(vec_cross(normal, plane_basis_u(normal)))
}

/// The intersection of a ray with a placed plane.
///
/// The ray is taken into the plane's local space; there is a hit exactly when
/// the transformed direction strictly faces the plane (positive denominator),
/// so back-facing and parallel rays never hit.
#[verifier::opaque]
pub open spec fn plane_hit(p: Plane, ray: Ray) -> Option<Intersection> {
    let tray = mat_ray_mul(p.inv_transform, ray);
    let denom = fneg(vec_dot(p.normal, tray.direction));
    if denom.raw > 0 {
        let dir = pt_sub(p.origin, tray.origin);
        let t = fdiv(fneg(vec_dot(dir, p.normal)), denom);
        let point = ray_at(ray, t);
        Some(
            Intersection {
                id: 0,
                t,
                material: p.material,
                point,
                eye_dir: vec_norm(vec_neg(ray.direction)),
                normal: mat_vec3_mul(p.transform, p.normal),
                entering: t.raw >= 0,
                tex_coord: (
                    vec_dot(p.u, Vector3 { x: point.x, y: point.y, z: point.z }),
                    vec_dot(p.v, Vector3 { x: point.x, y: point.y, z: point.z }),
                ),
            },
        )
    } else {
        None
    }
}

impl Plane {
    /// The plane through `origin` with normal `normal`, wearing the given
    /// material, with its texture basis built from the normal.
    pub fn new(origin: &Point3, normal: &Vector3, material: MaterialId) -> (p: Plane)
        ensures
            p == (Plane {
                origin: *origin,
                normal: *normal,
                material,
                transform: mat_identity(),
                inv_transform: mat_identity(),
                u: plane_basis_u(*normal),
                v: plane_basis_v(*normal),
            }),
    {
        let x_axis = Vector3::new(Fx::one(), Fx::zero(), Fx::zero());
        let w = if normal.cross(&x_axis).len2().raw == 0 {
            Vector3::new(Fx::zero(), Fx::one(), Fx::zero())
        } else {
            x_axis
        };
        let u = normal.cross(&w).norm();
        let v = normal.cross(&u).norm();
        Plane {
            origin: *origin,
            normal: *normal,
            material,
            transform: Matrix::identity(),
            inv_transform: Matrix::identity(),
            u,
            v,
        }
    }

    /// Place the plane in the scene. Fails, leaving the plane unchanged,
    /// exactly when the placement is singular.
    pub fn set_transform(&mut self, mat: &Matrix) -> (ok: bool)
        ensures
            ok <==> mat_det(*mat).raw != 0,
            match mat_inverse(*mat) {
                Some(inv) => *final(self) == (Plane { transform: *mat, inv_transform: inv, ..*old(self) }),
                None => *final(self) == *old(self),
            },
    {
        match mat.inverse() {
            Some(inv) => {
                self.transform = *mat;
                self.inv_transform = inv;
                true
            },
            None => false,
        }
    }

    /// The intersection of `ray` with this plane, if any.
    pub fn intersect(&self, ray: &Ray) -> (r: Option<Intersection>)
        ensures
            r == plane_hit(*self, *ray),
    {
        proof {
            reveal(plane_hit);
        }
        let transformed_ray = self.inv_transform.ray_mul(ray);
        let denom = self.normal.dot(&transformed_ray.direction()).neg();
        if denom.raw > 0 {
            let dir = self.origin.sub(&transformed_ray.origin());
            let t = dir.dot(&self.normal).neg().div(&denom);
            let point = ray.at(t);
            let u = self.u.dot(&Vector3::from_point(&point));
            let v = self.v.dot(&Vector3::from_point(&point));
            Some(
                Intersection {
                    id: 0,
                    t,
                    material: self.material,
                    point,
                    eye_dir: ray.direction().neg().norm(),
                    normal: self.transform.vec3_mul(&self.normal),
                    entering: t.raw >= 0,
                    tex_coord: (u, v),
                },
            )
        } else {
            None
        }
    }
}

} // verus!
