//! The triangle primitive, intersected by the Moller-Trumbore algorithm.

use vstd::prelude::*;

use crate::fixed::{fadd, fdiv, fmul, fx_one, Fx};
use crate::intersection::{Intersection, MaterialId};
use crate::matrix::{mat_det, mat_identity, mat_inverse, Matrix};
use crate::point::{pt_sub, Point3};
use crate::ray::{ray_at, Ray};
use crate::vector3::{vec_cross, vec_dot, vec_neg, vec_norm, Vector3};

verus! {

/// A triangle with the given vertices; the normal is fixed at construction
/// from the winding order.
#[derive(Clone, Copy, Debug, PartialEq)]
pub struct Triangle {
    pub v0: Point3,
    pub v1: Point3,
    pub v2: Point3,
    pub normal: Vector3,
    pub material: MaterialId,
    pub transform: Matrix,
    pub inv_transform: Matrix,
}

/// The normal of a triangle from its winding order: the normalized cross of
/// the first two edges.
pub open spec fn triangle_normal(v0: Point3, v1: Point3, v2: Point3) -> Vector3 {
    vec_norm(vec_cross(pt_sub(v1, v0), pt_sub(v2, v1)))
}

/// The intersection of a ray with a triangle, by Moller-Trumbore.
///
/// Degenerate (zero-determinant) configurations and hits outside the
/// barycentric range or behind the ray origin are rejected; `entering`
/// reports the sign of the determinant.
#[verifier::opaque]
pub open spec fn triangle_hit(tr: Triangle, ray: Ray) -> Option<Intersection> {
    let v0v1 = pt_sub(tr.v1, tr.v0);
    let v0v2 = pt_sub(tr.v2, tr.v0);
    let pvec = vec_cross(ray.direction, v0v2);
    let det = vec_dot(v0v1, pvec);
    if det.raw == 0 {
        None
    } else {
        let inv_det = fdiv(fx_one(), det);
        let tvec = pt_sub(ray.origin, tr.v0);
        let u = fmul(vec_dot(tvec, pvec), inv_det);
        if u.raw < 0 || u.raw > 65536 {
            None
        } else {
            let qvec = vec_cross(tvec, v0v1);
            let v = fmul(vec_dot(ray.direction, qvec), inv_det);
            if v.raw < 0 || fadd(u, v).raw > 65536 {
                None
            } else {
                let t = fmul(vec_dot(v0v2, qvec), inv_det);
                if t.raw < 0 {
                    None
                } else {
                    Some(
                        Intersection {
                            id: 0,
                            t,
                            material: tr.material,
                            point: ray_at(ray, t),
                            eye_dir: vec_norm(vec_neg(ray.direction)),
                            normal: tr.normal,
                            entering: det.raw > 0,
                            tex_coord: (u, v),
                        },
                    )
                }
            }
        }
    }
}

impl Triangle {
    /// The triangle over the given vertices wearing the given material.
    pub fn new(v0: &Point3, v1: &Point3, v2: &Point3, material: MaterialId) -> (t: Triangle)
        ensures
            t == (Triangle {
                v0: *v0,
                v1: *v1,
                v2: *v2,
                normal: triangle_normal(*v0, *v1, *v2),
                material,
                transform: mat_identity(),
                inv_transform: mat_identity(),
            }),
    {
        let v0v1 = v1.sub(v0);
        let v0v2 = v2.sub(v1);
        let normal = v0v1.cross(&v0v2).norm();
        Triangle {
            v0: *v0,
            v1: *v1,
            v2: *v2,
            normal,
            material,
            transform: Matrix::identity(),
            inv_transform: Matrix::identity(),
        }
    }

    /// Record a placement. Fails, leaving the triangle unchanged, exactly
    /// when the placement is singular. (The intersection test itself works on
    /// the stored vertices; composite shapes transform the ray instead.)
    pub fn set_transform(&mut self, mat: &Matrix) -> (ok: bool)
        ensures
            ok <==> mat_det(*mat).raw != 0,
            match mat_inverse(*mat) {
                Some(inv) => *final(self) == (Triangle {
                    transform: *mat,
                    inv_transform: inv,
                    ..*old(self)
                }),
                None => *final(self) == *old(self),
            },
    {
        match mat.inverse() {
            Some(inv) => {
                self.transform = *mat;
                self.inv_transform = inv;
                true
            },
            None => false,
        }
    }

    /// The intersection of `ray` with this triangle, if any.
    pub fn intersect(&self, ray: &Ray) -> (r: Option<Intersection>)
        ensures
            r == triangle_hit(*self, *ray),
    {
        proof {
            reveal(triangle_hit);
        }
        let v0v1 = self.v1.sub(&self.v0);
        let v0v2 = self.v2.sub(&self.v0);
        let pvec = ray.direction().cross(&v0v2);
        let det = v0v1.dot(&pvec);

        if det.raw == 0 {
            return None;
        }

        let inv_det = Fx::one().div(&det);
        let tvec = ray.origin().sub(&self.v0);
        let u = tvec.dot(&pvec).mul(&inv_det);
        if u.raw < 0 || u.raw > 65536 {
            return None;
        }

        let qvec = tvec.cross(&v0v1);
        let v = ray.direction().dot(&qvec).mul(&inv_det);
        if v.raw < 0 || u.add(&v).raw > 65536 {
            return None;
        }

        let t = v0v2.dot(&qvec).mul(&inv_det);
        if t.raw < 0 {
            return None;
        }

        Some(
            Intersection {
                id: 0,
                t,
                material: self.material,
                point: ray.at(t),
                eye_dir: ray.direction().neg().norm(),
                normal: self.normal,
                entering: det.raw > 0,
                tex_coord: (u, v),
            },
        )
    }
}

} // verus!
