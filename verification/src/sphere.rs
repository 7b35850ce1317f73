//! The unit sphere primitive, placed by an affine transform.

use vstd::prelude::*;

use crate::fixed::{
    fadd, fdiv, fmul, fsqrt, fsub, fx_half, fx_four, fx_neg_half, fx_one, fx_two, Fx,
};
use crate::intersection::{Intersection, MaterialId};
use crate::matrix::{mat_det, mat_identity, mat_inverse, mat_ray_mul, mat_transpose, mat_vec3_mul, Matrix};
use crate::point::{pt_sub, Point3};
use crate::ray::{ray_at, Ray};
use crate::vector3::{vec_dot, vec_len2, vec_neg, vec_norm, Vector3};

verus! {

/// Both real roots of `a x^2 + b x + c = 0`, unordered; `None` when the
/// discriminant is negative. A zero discriminant yields the double root.
pub open spec fn solve_quadratic_spec(a: Fx, b: Fx, c: Fx) -> Option<(Fx, Fx)> {
    let discr = fsub(fmul(b, b), fmul(fmul(fx_four(), a), c));
    if discr.raw < 0 {
        None
    } else if discr.raw == 0 {
        let x = fdiv(fmul(fx_neg_half(), b), a);
        Some((x, x))
    } else {
        let q = if b.raw > 0 {
            fmul(fx_neg_half(), fadd(b, fsqrt(discr)))
        } else {
            fmul(fx_neg_half(), fsub(b, fsqrt(discr)))
        };
        Some((fdiv(q, a), fdiv(c, q)))
    }
}

/// Solve `a x^2 + b x + c = 0`, in the numerically stable `q` form.
pub fn solve_quadratic(a: Fx, b: Fx, c: Fx) -> (r: Option<(Fx, Fx)>)
    ensures
        r == solve_quadratic_spec(a, b, c),
{
    let four = Fx::from_raw(262144);
    let neg_half = Fx::from_raw(-32768);
    let discr = b.mul(&b).sub(&four.mul(&a).mul(&c));
    if discr.raw < 0 {
        None
    } else if discr.raw == 0 {
        let x = neg_half.mul(&b).div(&a);
        Some((x, x))
    } else {
        let q = if b.raw > 0 {
            neg_half.mul(&b.add(&discr.sqrt()))
        } else {
            neg_half.mul(&b.sub(&discr.sqrt()))
        };
        Some((q.div(&a), c.div(&q)))
    }
}

/// A unit sphere at the origin of its local space, placed in the scene by
/// `transform` (whose inverse is cached).
#[derive(Clone, Copy, Debug, PartialEq)]
pub struct Sphere {
    pub transform: Matrix,
    pub inv_transform: Matrix,
    pub material: MaterialId,
}

/// The intersection of a ray with a placed unit sphere.
///
/// The ray is taken into the sphere's local space; the standard quadratic
/// gives the two roots. The smaller positive root is the hit; when the
/// smaller root is nonpositive (origin inside or behind) the larger root is
/// used, and the hit counts as exiting. No hit when both roots are negative
/// or the discriminant is.
#[verifier::opaque]
pub open spec fn sphere_hit(s: Sphere, ray: Ray) -> Option<Intersection> {
    let tray = mat_ray_mul(s.inv_transform, ray);
    let l = pt_sub(tray.origin, Point3 { x: Fx { raw: 0 }, y: Fx { raw: 0 }, z: Fx { raw: 0 } });
    let a = vec_len2(tray.direction);
    let b = fmul(fx_two(), vec_dot(tray.direction, l));
    let c = fsub(vec_len2(l), fx_one());
    match solve_quadratic_spec(a, b, c) {
        None => None,
        Some((r0, r1)) => {
            let t0 = if r0.raw > r1.raw {
                r1
            } else {
                r0
            };
            let t1 = if r0.raw > r1.raw {
                r0
            } else {
                r1
            };
            if t1.raw < 0 {
                None
            } else {
                let t = if t0.raw > 0 {
                    t0
                } else {
                    t1
                };
                let entering = t0.raw > 0;
                let local = ray_at(tray, t);
                let n0 = vec_norm(
                    mat_vec3_mul(
                        mat_transpose(s.inv_transform),
                        Vector3 { x: local.x, y: local.y, z: local.z },
                    ),
                );
                let normal = if entering {
                    n0
                } else {
                    vec_neg(n0)
                };
                Some(
                    Intersection {
                        id: 0,
                        t,
                        material: s.material,
                        point: ray_at(ray, t),
                        eye_dir: vec_norm(vec_neg(ray.direction)),
                        normal,
                        entering,
                        tex_coord: sphere_tex_coord(normal),
                    },
                )
            }
        },
    }
}

/// Texture coordinates on the sphere from the unit normal: each of the x and
/// y components mapped affinely from -1..1 to 0..1.
pub open spec fn sphere_tex_coord(n: Vector3) -> (Fx, Fx) {
    (fmul(fadd(n.x, fx_one()), fx_half()), fmul(fadd(n.y, fx_one()), fx_half()))
}

impl Sphere {
    /// A unit sphere at the origin wearing the given material.
    pub fn new(material: MaterialId) -> (s: Sphere)
        ensures
            s == (Sphere {
                transform: mat_identity(),
                inv_transform: mat_identity(),
                material,
            }),
    {
        Sphere { transform: Matrix::identity(), inv_transform: Matrix::identity(), material }
    }

    /// Place the sphere in the scene. Fails, leaving the sphere unchanged,
    /// exactly when the placement is singular.
    pub fn set_transform(&mut self, mat: &Matrix) -> (ok: bool)
        ensures
            ok <==> mat_det(*mat).raw != 0,
            match mat_inverse(*mat) {
                Some(inv) => *final(self) == (Sphere {
                    transform: *mat,
                    inv_transform: inv,
                    material: old(self).material,
                }),
                None => *final(self) == *old(self),
            },
    {
        match mat.inverse() {
            Some(inv) => {
                self.transform = *mat;
                self.inv_transform = inv;
                true
            },
            None => false,
        }
    }

    /// The intersection of `ray` with this sphere, if any.
    pub fn intersect(&self, ray: &Ray) -> (r: Option<Intersection>)
        ensures
            r == sphere_hit(*self, *ray),
    {
        proof {
            reveal(sphere_hit);
        }
        let transformed_ray = self.inv_transform.ray_mul(ray);
        let l = transformed_ray.origin().sub(&Point3::new(Fx::zero(), Fx::zero(), Fx::zero()));
        let a = transformed_ray.direction().len2();
        let b = Fx::from_raw(131072).mul(&transformed_ray.direction().dot(&l));
        let c = l.len2().sub(&Fx::one());
        match solve_quadratic(a, b, c) {
            None => None,
            Some((r0, r1)) => {
                let t0 = if r0.raw > r1.raw {
                    r1
                } else {
                    r0
                };
                let t1 = if r0.raw > r1.raw {
                    r0
                } else {
                    r1
                };
                if t1.raw < 0 {
                    return None;
                }
                let t = if t0.raw > 0 {
                    t0
                } else {
                    t1
                };
                let entering = t0.raw > 0;
                let local = transformed_ray.at(t);
                let n0 = self.inv_transform.transpose().vec3_mul(&Vector3::from_point(&local)).norm();
                let normal = if entering {
                    n0
                } else {
                    n0.neg()
                };
                let eye_dir = ray.direction().neg().norm();
                let half = Fx::from_raw(32768);
                let one = Fx::one();
                Some(
                    Intersection {
                        id: 0,
                        t,
                        material: self.material,
                        point: ray.at(t),
                        eye_dir,
                        normal,
                        entering,
                        tex_coord: (normal.x.add(&one).mul(&half), normal.y.add(&one).mul(&half)),
                    },
                )
            },
        }
    }
}

} // verus!
