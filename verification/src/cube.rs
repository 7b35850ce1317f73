//! The composite cube primitive: twelve triangles sharing one material.

use vstd::prelude::*;

use crate::fixed::Fx;
use crate::intersection::{Intersection, MaterialId};
use crate::matrix::{mat_det, mat_identity, mat_inverse, mat_ray_mul, mat_transpose, mat_vec3_mul, Matrix};
use crate::point::Point3;
use crate::ray::{ray_at, Ray};
use crate::triangle::{triangle_hit, triangle_normal, Triangle};
use crate::vector3::{vec_neg, vec_norm};

verus! {

/// A unit cube centered at its local origin, decomposed at construction into
/// twelve triangles (two per face) that share one material, and placed in
/// the scene by `transform`.
#[derive(Clone, Debug, PartialEq)]
pub struct Cube {
    pub triangles: Vec<Triangle>,
    pub transform: Matrix,
    pub inv_transform: Matrix,
}

/// The nearest triangle hit in the list: minimum ray parameter, the earliest
/// triangle keeping ties.
pub open spec fn nearest_tri_hit(tris: Seq<Triangle>, ray: Ray) -> Option<Intersection>
    decreases tris.len(),
{
    if tris.len() == 0 {
        None
    } else {
        let prev = nearest_tri_hit(tris.drop_last(), ray);
        let cur = triangle_hit(tris.last(), ray);
        match cur {
            None => prev,
            Some(c) => match prev {
                None => Some(c),
                Some(p) => if c.t.raw < p.t.raw {
                    Some(c)
                } else {
                    Some(p)
                },
            },
        }
    }
}

/// A triangle of the cube's local decomposition.
pub open spec fn cube_tri(v0: Point3, v1: Point3, v2: Point3, material: MaterialId) -> Triangle {
    Triangle {
        v0,
        v1,
        v2,
        normal: triangle_normal(v0, v1, v2),
        material,
        transform: mat_identity(),
        inv_transform: mat_identity(),
    }
}

/// A corner of the unit cube; each coordinate is plus or minus one half.
pub open spec fn cube_pt(x: i64, y: i64, z: i64) -> Point3 {
    Point3 { x: Fx { raw: x }, y: Fx { raw: y }, z: Fx { raw: z } }
}

/// The twelve triangles of the unit cube, two per face, in construction
/// order: front, back, right, left, top, bottom.
pub open spec fn cube_triangles(material: MaterialId) -> Seq<Triangle> {
    let v0 = cube_pt(32768i64, 32768i64, -32768i64);
    let v1 = cube_pt(32768i64, -32768i64, -32768i64);
    let v2 = cube_pt(-32768i64, -32768i64, -32768i64);
    let v3 = cube_pt(-32768i64, 32768i64, -32768i64);
    let v4 = cube_pt(32768i64, 32768i64, 32768i64);
    let v5 = cube_pt(-32768i64, 32768i64, 32768i64);
    let v6 = cube_pt(-32768i64, -32768i64, 32768i64);
    let v7 = cube_pt(32768i64, -32768i64, 32768i64);
    seq![
        cube_tri(v1, v2, v3, material),
        cube_tri(v0, v1, v3, material),
        cube_tri(v7, v5, v4, material),
        cube_tri(v5, v7, v6, material),
        cube_tri(v0, v4, v7, material),
        cube_tri(v7, v1, v0, material),
        cube_tri(v5, v3, v6, material),
        cube_tri(v6, v3, v2, material),
        cube_tri(v5, v4, v0, material),
        cube_tri(v0, v3, v5, material),
        cube_tri(v1, v7, v6, material),
        cube_tri(v6, v2, v1, material),
    ]
}

/// The intersection of a ray with a placed cube: the ray is taken into the
/// cube's local space, the nearest triangle hit found there, and the hit
/// point, eye direction and normal rebuilt in world space.
#[verifier::opaque]
pub open spec fn cube_hit(c: Cube, ray: Ray) -> Option<Intersection> {
    let tray = mat_ray_mul(c.inv_transform, ray);
    match nearest_tri_hit(c.triangles@, tray) {
        None => None,
        Some(i) => Some(
            Intersection {
                point: ray_at(ray, i.t),
                eye_dir: vec_norm(vec_neg(ray.direction)),
                normal: vec_norm(mat_vec3_mul(mat_transpose(c.inv_transform), i.normal)),
                ..i
            },
        ),
    }
}

impl Cube {
    /// The unit cube wearing the given material on all twelve faces.
    #[verifier::rlimit(100)]
    pub fn new(material: MaterialId) -> (c: Cube)
        ensures
            c.triangles@ == cube_triangles(material),
            c.transform == mat_identity(),
            c.inv_transform == mat_identity(),
    {
        let half = Fx::from_raw(32768);
        let neg_half = Fx::from_raw(-32768);
        let v0 = Point3::new(half, half, neg_half);
        let v1 = Point3::new(half, neg_half, neg_half);
        let v2 = Point3::new(neg_half, neg_half, neg_half);
        let v3 = Point3::new(neg_half, half, neg_half);
        let v4 = Point3::new(half, half, half);
        let v5 = Point3::new(neg_half, half, half);
        let v6 = Point3::new(neg_half, neg_half, half);
        let v7 = Point3::new(half, neg_half, half);

        let mut triangles: Vec<Triangle> = Vec::new();
        triangles.push(Triangle::new(&v1, &v2, &v3, material));
        triangles.push(Triangle::new(&v0, &v1, &v3, material));
        triangles.push(Triangle::new(&v7, &v5, &v4, material));
        triangles.push(Triangle::new(&v5, &v7, &v6, material));
        triangles.push(Triangle::new(&v0, &v4, &v7, material));
        triangles.push(Triangle::new(&v7, &v1, &v0, material));
        triangles.push(Triangle::new(&v5, &v3, &v6, material));
        triangles.push(Triangle::new(&v6, &v3, &v2, material));
        triangles.push(Triangle::new(&v5, &v4, &v0, material));
        triangles.push(Triangle::new(&v0, &v3, &v5, material));
        triangles.push(Triangle::new(&v1, &v7, &v6, material));
        triangles.push(Triangle::new(&v6, &v2, &v1, material));
        proof {
            assert(triangles@ =~= cube_triangles(material));
        }
        Cube { triangles, transform: Matrix::identity(), inv_transform: Matrix::identity() }
    }

    /// Place the cube in the scene. Fails, leaving the cube unchanged,
    /// exactly when the placement is singular.
    pub fn set_transform(&mut self, mat: &Matrix) -> (ok: bool)
        ensures
            ok <==> mat_det(*mat).raw != 0,
            final(self).triangles@ == old(self).triangles@,
            match mat_inverse(*mat) {
                Some(inv) => final(self).transform == *mat && final(self).inv_transform == inv,
                None => final(self).transform == old(self).transform && final(self).inv_transform
                    == old(self).inv_transform,
            },
    {
        match mat.inverse() {
            Some(inv) => {
                self.transform = *mat;
                self.inv_transform = inv;
                true
            },
            None => false,
        }
    }

    /// The intersection of `ray` with this cube, if any.
    #[verifier::rlimit(100)]
    pub fn intersect(&self, ray: &Ray) -> (r: Option<Intersection>)
        ensures
            r == cube_hit(*self, *ray),
    {
        proof {
            reveal(cube_hit);
        }
        let transformed_ray = self.inv_transform.ray_mul(ray);
        let mut nearest: Option<Intersection> = None;
        let mut j: usize = 0;
        while j < self.triangles.len()
            invariant
                j <= self.triangles@.len(),
                nearest == nearest_tri_hit(self.triangles@.subrange(0, j as int), transformed_ray),
            decreases self.triangles@.len() - j,
        {
            let cur = self.triangles[j].intersect(&transformed_ray);
            proof {
                assert(self.triangles@.subrange(0, j + 1).drop_last() =~= self.triangles@.subrange(
                    0,
                    j as int,
                ));
                assert(self.triangles@.subrange(0, j + 1).last() == self.triangles@[j as int]);
            }
            match cur {
                None => {},
                Some(c) => {
                    match nearest {
                        None => {
                            nearest = Some(c);
                        },
                        Some(p) => {
                            if c.t.raw < p.t.raw {
                                nearest = Some(c);
                            }
                        },
                    }
                },
            }
            j = j + 1;
        }
        proof {
            assert(self.triangles@.subrange(0, self.triangles@.len() as int) =~= self.triangles@);
        }
        match nearest {
            None => None,
            Some(i) => Some(
                Intersection {
                    point: ray.at(i.t),
                    eye_dir: ray.direction().neg().norm(),
                    normal: self.inv_transform.transpose().vec3_mul(&i.normal).norm(),
                    ..i
                },
            ),
        }
    }
}

/// Every hit in a triangle list wears one of the list's materials.
pub proof fn lemma_nearest_tri_material(tris: Seq<Triangle>, ray: Ray, n: int)
    requires
        forall|j: int| 0 <= j < tris.len() ==> (#[trigger] tris[j]).material < n,
    ensures
        match nearest_tri_hit(tris, ray) {
            Some(i) => 0 <= i.material < n,
            None => true,
        },
    decreases tris.len(),
{
    reveal(triangle_hit);
    if tris.len() > 0 {
        lemma_nearest_tri_material(tris.drop_last(), ray, n);
    }
}

} // verus!
