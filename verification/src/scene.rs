//! The scene: an ambient term, an ordered list of shapes, an ordered list of
//! lights, and the material arena the shapes refer into.
//!
//! A shape's scene-level identifier is its insertion index, 0-based and
//! stable for the scene's lifetime.

use vstd::prelude::*;

use crate::color::{color_black, Color};
use crate::cube::{cube_hit, Cube};
use crate::fixed::Fx;
use crate::intersection::Intersection;
use crate::material::TexturePhong;
use crate::plane::{plane_hit, Plane};
use crate::point::{pt_sub, Point3};
use crate::ray::Ray;
use crate::sphere::{sphere_hit, Sphere};
use crate::triangle::{triangle_hit, Triangle};
use crate::vector3::{vec_len2, vec_norm, Vector3};

verus! {

/// A renderable primitive of the scene: the closed set of shape kinds,
/// dispatched by pattern match.
#[derive(Clone, Debug, PartialEq)]
pub enum Shape {
    Sphere(Sphere),
    Plane(Plane),
    Triangle(Triangle),
    Cube(Cube),
}

/// The intersection of a ray with a shape, by kind.
pub open spec fn shape_hit(s: Shape, ray: Ray) -> Option<Intersection> {
    match s {
        Shape::Sphere(sp) => sphere_hit(sp, ray),
        Shape::Plane(pl) => plane_hit(pl, ray),
        Shape::Triangle(tr) => triangle_hit(tr, ray),
        Shape::Cube(cu) => cube_hit(cu, ray),
    }
}

/// Every material index a shape wears lies below `n`.
pub open spec fn shape_wf(s: Shape, n: int) -> bool {
    match s {
        Shape::Sphere(sp) => sp.material < n,
        Shape::Plane(pl) => pl.material < n,
        Shape::Triangle(tr) => tr.material < n,
        Shape::Cube(cu) => forall|j: int|
            0 <= j < cu.triangles@.len() ==> (#[trigger] cu.triangles@[j]).material < n,
    }
}

impl Shape {
    /// The intersection of `ray` with this shape, if any.
    pub fn intersect(&self, ray: &Ray) -> (r: Option<Intersection>)
        ensures
            r == shape_hit(*self, *ray),
    {
        match self {
            Shape::Sphere(sp) => sp.intersect(ray),
            Shape::Plane(pl) => pl.intersect(ray),
            Shape::Triangle(tr) => tr.intersect(ray),
            Shape::Cube(cu) => cu.intersect(ray),
        }
    }
}

/// A point light radiating one color equally in all directions.
#[derive(Clone, Copy, Debug, PartialEq, Eq, Structural)]
pub struct PointLight {
    pub pos: Point3,
    pub color: Color,
}

impl PointLight {
    /// The point light at `pos` radiating `color`.
    pub fn new(pos: Point3, color: Color) -> (l: PointLight)
        ensures
            l == (PointLight { pos, color }),
    {
        PointLight { pos, color }
    }
}

/// A light radiating every point with a constant energy.
#[derive(Clone, Copy, Debug, PartialEq, Eq, Structural)]
pub struct AmbientLight {
    pub color: Color,
}

impl AmbientLight {
    /// The ambient light of the given color.
    pub fn new(c: &Color) -> (l: AmbientLight)
        ensures
            l == (AmbientLight { color: *c }),
    {
        AmbientLight { color: *c }
    }
}

/// A light source of the scene.
#[derive(Clone, Copy, Debug, PartialEq, Eq, Structural)]
pub enum Light {
    Point(PointLight),
    Ambient(AmbientLight),
}

/// The scene.
#[derive(Clone, Debug)]
pub struct Scene {
    pub ambient: Color,
    pub lights: Vec<Light>,
    pub shapes: Vec<Shape>,
    pub materials: Vec<TexturePhong>,
}

/// The hit of the shape at index `j`, carrying `j` as the primitive id.
pub open spec fn hit_at(shapes: Seq<Shape>, j: int, ray: Ray) -> Option<Intersection> {
    match shape_hit(shapes[j], ray) {
        None => None,
        Some(i) => Some(Intersection { id: j as i32, ..i }),
    }
}

/// The nearest hit among the shapes: minimum ray parameter, the earliest
/// shape keeping ties.
pub open spec fn scene_nearest(shapes: Seq<Shape>, ray: Ray) -> Option<Intersection>
    decreases shapes.len(),
{
    if shapes.len() == 0 {
        None
    } else {
        let prev = scene_nearest(shapes.drop_last(), ray);
        let cur = hit_at(shapes, shapes.len() - 1, ray);
        match cur {
            None => prev,
            Some(c) => match prev {
                None => Some(c),
                Some(p) => if c.t.raw < p.t.raw {
                    Some(c)
                } else {
                    Some(p)
                },
            },
        }
    }
}

/// The nearest hit of a ray in the scene.
pub open spec fn scene_hit(s: Scene, ray: Ray) -> Option<Intersection> {
    scene_nearest(s.shapes@, ray)
}

/// The scene's structural invariant: the shape count fits the id type and
/// every shape's material index lies inside the arena.
pub open spec fn scene_wf(s: Scene) -> bool {
    s.shapes@.len() <= 0x7fff_ffff && forall|j: int|
        0 <= j < s.shapes@.len() ==> shape_wf(#[trigger] s.shapes@[j], s.materials@.len() as int)
}

/// The sample one light contributes at `point`: the unit direction toward
/// the light and the energy that arrives. A point light is shadow-tested by
/// a ray toward it: energy is black when a scene hit stands strictly between
/// `point` and the light. An ambient light contributes its color with a zero
/// direction.
pub open spec fn light_energy(l: Light, s: Scene, point: Point3) -> (Vector3, Color) {
    match l {
        Light::Ambient(a) => (Vector3 { x: Fx { raw: 0 }, y: Fx { raw: 0 }, z: Fx { raw: 0 } }, a.color),
        Light::Point(pl) => {
            let dir_to_light = vec_norm(pt_sub(pl.pos, point));
            let sray = Ray { origin: point, direction: dir_to_light };
            let energy = match scene_hit(s, sray) {
                Some(i) => if vec_len2(pt_sub(i.point, point)).raw < vec_len2(
                    pt_sub(pl.pos, point),
                ).raw {
                    color_black()
                } else {
                    pl.color
                },
                None => pl.color,
            };
            (dir_to_light, energy)
        },
    }
}

impl Light {
    /// The sample this light contributes at `point`.
    pub fn get_energy(&self, scene: &Scene, point: &Point3) -> (r: (Vector3, Color))
        requires
            scene.shapes@.len() <= 0x7fff_ffff,
        ensures
            r == light_energy(*self, *scene, *point),
    {
        match self {
            Light::Ambient(a) => (Vector3::new(Fx::zero(), Fx::zero(), Fx::zero()), a.color),
            Light::Point(pl) => {
                let dir_to_light = pl.pos.sub(point).norm();
                let ray = Ray::new(point, &dir_to_light);
                let energy = match scene.intersect(&ray) {
                    Some(i) => {
                        if i.point.sub(point).len2().raw < pl.pos.sub(point).len2().raw {
                            Color::black()
                        } else {
                            pl.color
                        }
                    },
                    None => pl.color,
                };
                (dir_to_light, energy)
            },
        }
    }
}

impl Scene {
    /// The empty scene: black ambient, no shapes, no lights, no materials.
    pub fn new() -> (s: Scene)
        ensures
            s.ambient == color_black(),
            s.lights@.len() == 0,
            s.shapes@.len() == 0,
            s.materials@.len() == 0,
            scene_wf(s),
    {
        Scene { ambient: Color::black(), lights: Vec::new(), shapes: Vec::new(), materials: Vec::new() }
    }

    /// Add a material to the arena, returning its stable index.
    pub fn add_material(&mut self, m: TexturePhong) -> (id: usize)
        ensures
            id == old(self).materials@.len(),
            final(self).materials@ == old(self).materials@.push(m),
            final(self).shapes@ == old(self).shapes@,
            final(self).lights@ == old(self).lights@,
            final(self).ambient == old(self).ambient,
            scene_wf(*old(self)) ==> scene_wf(*final(self)),
    {
        let id = self.materials.len();
        self.materials.push(m);
        proof {
            if scene_wf(*old(self)) {
                assert forall|j: int| 0 <= j < self.shapes@.len() implies shape_wf(
                    #[trigger] self.shapes@[j],
                    self.materials@.len() as int,
                ) by {
                    assert(shape_wf(self.shapes@[j], old(self).materials@.len() as int));
                }
            }
        }
        id
    }

    /// Replace the material at `id`; every shape wearing `id` sees the edit.
    pub fn set_material(&mut self, id: usize, m: TexturePhong)
        requires
            id < old(self).materials@.len(),
        ensures
            final(self).materials@ == old(self).materials@.update(id as int, m),
            final(self).shapes@ == old(self).shapes@,
            final(self).lights@ == old(self).lights@,
            final(self).ambient == old(self).ambient,
            scene_wf(*old(self)) ==> scene_wf(*final(self)),
    {
        self.materials.set(id, m);
    }

    /// The material at `id`.
    pub fn material(&self, id: usize) -> (m: TexturePhong)
        requires
            id < self.materials@.len(),
        ensures
            m == self.materials@[id as int],
    {
        self.materials[id]
    }

    /// Add a shape; its scene-level id is its insertion index.
    pub fn add_shape(&mut self, shape: Shape) -> (id: usize)
        requires
            old(self).shapes@.len() < 0x7fff_ffff,
        ensures
            id == old(self).shapes@.len(),
            final(self).shapes@ == old(self).shapes@.push(shape),
            final(self).materials@ == old(self).materials@,
            final(self).lights@ == old(self).lights@,
            final(self).ambient == old(self).ambient,
            scene_wf(*old(self)) && shape_wf(shape, old(self).materials@.len() as int)
                ==> scene_wf(*final(self)),
    {
        let id = self.shapes.len();
        self.shapes.push(shape);
        id
    }

    /// Add a light source.
    pub fn add_light(&mut self, light: Light)
        ensures
            final(self).lights@ == old(self).lights@.push(light),
            final(self).shapes@ == old(self).shapes@,
            final(self).materials@ == old(self).materials@,
            final(self).ambient == old(self).ambient,
    {
        self.lights.push(light);
    }

    /// Set the ambient term.
    pub fn set_ambient(&mut self, ambient: &Color)
        ensures
            final(self).ambient == *ambient,
            final(self).shapes@ == old(self).shapes@,
            final(self).materials@ == old(self).materials@,
            final(self).lights@ == old(self).lights@,
    {
        self.ambient = *ambient;
    }

    /// The ambient term.
    pub fn ambient(&self) -> (c: Color)
        ensures
            c == self.ambient,
    {
        self.ambient
    }

    /// The light list.
    pub fn lights(&self) -> (l: &Vec<Light>)
        ensures
            l == &self.lights,
    {
        &self.lights
    }

    /// The shape list.
    pub fn shapes(&self) -> (l: &Vec<Shape>)
        ensures
            l == &self.shapes,
    {
        &self.shapes
    }

    /// The nearest hit of `ray` among all shapes: the minimum-`t` hit, the
    /// earliest shape keeping ties, its id set to that shape's index; the
    /// characterization is [`lemma_scene_nearest_minimal`].
    #[verifier::rlimit(100)]
    pub fn intersect(&self, ray: &Ray) -> (r: Option<Intersection>)
        requires
            self.shapes@.len() <= 0x7fff_ffff,
        ensures
            r == scene_hit(*self, *ray),
    {
        let mut nearest: Option<Intersection> = None;
        let mut j: usize = 0;
        while j < self.shapes.len()
            invariant
                j <= self.shapes@.len(),
                self.shapes@.len() <= 0x7fff_ffff,
                nearest == scene_nearest(self.shapes@.subrange(0, j as int), *ray),
            decreases self.shapes@.len() - j,
        {
            let cur = self.shapes[j].intersect(ray);
            proof {
                assert(self.shapes@.subrange(0, j + 1).drop_last() =~= self.shapes@.subrange(
                    0,
                    j as int,
                ));
                assert(self.shapes@.subrange(0, j + 1).last() == self.shapes@[j as int]);
            }
            match cur {
                None => {},
                Some(c) => {
                    let with_id = Intersection { id: j as i32, ..c };
                    match nearest {
                        None => {
                            nearest = Some(with_id);
                        },
                        Some(p) => {
                            if with_id.t.raw < p.t.raw {
                                nearest = Some(with_id);
                            }
                        },
                    }
                },
            }
            j = j + 1;
        }
        proof {
            assert(self.shapes@.subrange(0, self.shapes@.len() as int) =~= self.shapes@);
        }
        nearest
    }
}

/// The shape at index `j` reports a hit for `ray`.
pub open spec fn hits(shapes: Seq<Shape>, j: int, ray: Ray) -> bool {
    shape_hit(shapes[j], ray) is Some
}

/// The ray parameter of the hit of the shape at index `j`.
pub open spec fn hit_t(shapes: Seq<Shape>, j: int, ray: Ray) -> Fx {
    shape_hit(shapes[j], ray)->Some_0.t
}

/// Index `j` is the earliest shape attaining the minimum hit parameter:
/// it hits, no hit is strictly nearer, and every earlier hit is strictly
/// farther.
pub open spec fn is_first_min(shapes: Seq<Shape>, ray: Ray, j: int) -> bool {
    &&& 0 <= j < shapes.len()
    &&& hits(shapes, j, ray)
    &&& forall|k: int|
        0 <= k < shapes.len() && #[trigger] hits(shapes, k, ray) ==> hit_t(shapes, j, ray).raw
            <= hit_t(shapes, k, ray).raw
    &&& forall|k: int|
        0 <= k < j && #[trigger] hits(shapes, k, ray) ==> hit_t(shapes, j, ray).raw < hit_t(
            shapes,
            k,
            ray,
        ).raw
}

/// The nearest-hit search returns no hit exactly when no shape hits, and
/// otherwise returns the hit of the earliest shape attaining the minimum
/// ray parameter, with that shape's index as its id.
pub proof fn lemma_scene_nearest_minimal(shapes: Seq<Shape>, ray: Ray)
    ensures
        scene_nearest(shapes, ray) is None <==> (forall|j: int|
            0 <= j < shapes.len() ==> !hits(shapes, j, ray)),
        match scene_nearest(shapes, ray) {
            None => true,
            Some(h) => exists|j: int|
                #[trigger] is_first_min(shapes, ray, j) && hit_at(shapes, j, ray) == Some(h),
        },
    decreases shapes.len(),
{
    if shapes.len() == 0 {
    } else {
        let n = shapes.len() - 1;
        let inner = shapes.drop_last();
        lemma_scene_nearest_minimal(inner, ray);
        assert forall|k: int| 0 <= k < n implies shapes[k] == inner[k] by {}
        let prev = scene_nearest(inner, ray);
        let cur = hit_at(shapes, n, ray);
        match prev {
            None => {
                match cur {
                    None => {
                        assert forall|j: int| 0 <= j < shapes.len() implies !hits(shapes, j, ray) by {
                            if j < n {
                                assert(!hits(inner, j, ray));
                            }
                        }
                    },
                    Some(c) => {
                        assert(is_first_min(shapes, ray, n)) by {
                            assert forall|k: int|
                                0 <= k < shapes.len() && #[trigger] hits(shapes, k, ray) implies hit_t(
                                shapes,
                                n,
                                ray,
                            ).raw <= hit_t(shapes, k, ray).raw by {
                                if k < n {
                                    assert(hits(inner, k, ray));
                                }
                            }
                            assert forall|k: int|
                                0 <= k < n && #[trigger] hits(shapes, k, ray) implies hit_t(
                                shapes,
                                n,
                                ray,
                            ).raw < hit_t(shapes, k, ray).raw by {
                                assert(hits(inner, k, ray));
                            }
                        }
                    },
                }
            },
            Some(p) => {
                let pj = choose|j: int|
                    #[trigger] is_first_min(inner, ray, j) && hit_at(inner, j, ray) == Some(p);
                assert(hit_at(shapes, pj, ray) == Some(p));
                match cur {
                    None => {
                        assert(is_first_min(shapes, ray, pj)) by {
                            assert forall|k: int|
                                0 <= k < shapes.len() && #[trigger] hits(shapes, k, ray) implies hit_t(
                                shapes,
                                pj,
                                ray,
                            ).raw <= hit_t(shapes, k, ray).raw by {
                                if k < n {
                                    assert(hits(inner, k, ray));
                                }
                            }
                            assert forall|k: int|
                                0 <= k < pj && #[trigger] hits(shapes, k, ray) implies hit_t(
                                shapes,
                                pj,
                                ray,
                            ).raw < hit_t(shapes, k, ray).raw by {
                                assert(hits(inner, k, ray));
                            }
                        }
                    },
                    Some(c) => {
                        if c.t.raw < p.t.raw {
                            assert(is_first_min(shapes, ray, n)) by {
                                assert forall|k: int|
                                    0 <= k < shapes.len() && #[trigger] hits(shapes, k, ray) implies hit_t(
                                    shapes,
                                    n,
                                    ray,
                                ).raw <= hit_t(shapes, k, ray).raw by {
                                    if k < n {
                                        assert(hits(inner, k, ray));
                                        assert(hit_t(inner, pj, ray).raw <= hit_t(inner, k, ray).raw);
                                    }
                                }
                                assert forall|k: int|
                                    0 <= k < n && #[trigger] hits(shapes, k, ray) implies hit_t(
                                    shapes,
                                    n,
                                    ray,
                                ).raw < hit_t(shapes, k, ray).raw by {
                                    assert(hits(inner, k, ray));
                                    assert(hit_t(inner, pj, ray).raw <= hit_t(inner, k, ray).raw);
                                }
                            }
                        } else {
                            assert(is_first_min(shapes, ray, pj)) by {
                                assert forall|k: int|
                                    0 <= k < shapes.len() && #[trigger] hits(shapes, k, ray) implies hit_t(
                                    shapes,
                                    pj,
                                    ray,
                                ).raw <= hit_t(shapes, k, ray).raw by {
                                    if k < n {
                                        assert(hits(inner, k, ray));
                                    }
                                }
                                assert forall|k: int|
                                    0 <= k < pj && #[trigger] hits(shapes, k, ray) implies hit_t(
                                    shapes,
                                    pj,
                                    ray,
                                ).raw < hit_t(shapes, k, ray).raw by {
                                    assert(hits(inner, k, ray));
                                }
                            }
                        }
                    },
                }
            },
        }
    }
}

/// Every hit a well-formed shape reports wears a material inside the arena.
pub proof fn lemma_shape_hit_wf(s: Shape, ray: Ray, n: int)
    requires
        shape_wf(s, n),
    ensures
        match shape_hit(s, ray) {
            Some(i) => 0 <= i.material < n,
            None => true,
        },
{
    match s {
        Shape::Sphere(sp) => {
            reveal(crate::sphere::sphere_hit);
        },
        Shape::Plane(pl) => {
            reveal(crate::plane::plane_hit);
        },
        Shape::Triangle(tr) => {
            reveal(crate::triangle::triangle_hit);
        },
        Shape::Cube(cu) => {
            reveal(crate::cube::cube_hit);
            crate::cube::lemma_nearest_tri_material(
                cu.triangles@,
                crate::matrix::mat_ray_mul(cu.inv_transform, ray),
                n,
            );
        },
    }
}

/// Every hit a well-formed scene reports wears a material inside the arena
/// and an id below the shape count.
pub proof fn lemma_scene_nearest_wf(shapes: Seq<Shape>, ray: Ray, n: int)
    requires
        forall|j: int| 0 <= j < shapes.len() ==> shape_wf(#[trigger] shapes[j], n),
        shapes.len() <= 0x7fff_ffff,
    ensures
        match scene_nearest(shapes, ray) {
            Some(i) => 0 <= i.material < n && 0 <= i.id < shapes.len(),
            None => true,
        },
    decreases shapes.len(),
{
    if shapes.len() > 0 {
        let inner = shapes.drop_last();
        assert forall|j: int| 0 <= j < inner.len() implies shape_wf(#[trigger] inner[j], n) by {
            assert(inner[j] == shapes[j]);
        }
        lemma_scene_nearest_wf(inner, ray, n);
        let last = shapes[shapes.len() - 1];
        lemma_shape_hit_wf(last, ray, n);
    }
}

} // verus!
