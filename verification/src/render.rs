//! One-shot rendering: the pinhole camera, the output buffer, and the
//! recursive tracer that folds ambient light, shadow-tested direct lighting,
//! Fresnel-weighted reflection and Fresnel-weighted refraction into a color.

use vstd::prelude::*;

use crate::color::{color_add, color_black, color_mul, color_scale, Color};
use crate::fixed::{fadd, fdiv, fmul, fneg, fpowi, fsqrt, fsub, fx, fx_one, Fx, SCALE};
use crate::intersection::Intersection;
use crate::material::{phong_reflected_energy, texture_at, texture_phong_at, TexturePhong};
use crate::point::{pt_add, pt_sub, Point3};
use crate::ray::Ray;
use crate::scene::{light_energy, lemma_scene_nearest_wf, scene_hit, scene_wf, Scene};
use crate::vector3::{vec_add, vec_dot, vec_neg, vec_norm, vec_reflect, vec_scale, Vector3};

verus! {

/// The offset, along a direction, by which secondary rays start away from
/// the surface they leave, so a ray does not immediately hit its own surface.
pub open spec fn fx_eps_offset() -> Fx {
    Fx { raw: 13 }
}

/// Schlick's approximation of the Fresnel reflectance: the fraction of
/// energy reflected at a surface between media of indices `n1` and `n2`, for
/// light arriving along `light_dir` against `normal`.
pub open spec fn fresnel_reflection_spec(light_dir: Vector3, normal: Vector3, n1: Fx, n2: Fx) -> Fx {
    let m_dot_r = vec_dot(light_dir, normal);
    let r0 = fmul(fdiv(fsub(n1, n2), fadd(n1, n2)), fdiv(fsub(n1, n2), fadd(n1, n2)));
    fadd(r0, fmul(fsub(fx_one(), r0), fpowi(fsub(fx_one(), m_dot_r), 5)))
}

/// The Fresnel transmittance: the energy not reflected.
pub open spec fn fresnel_refraction_spec(light_dir: Vector3, normal: Vector3, n1: Fx, n2: Fx) -> Fx {
    fsub(fx_one(), fresnel_reflection_spec(light_dir, normal, n1, n2))
}

/// The mirror ray leaving a hit: the incoming direction reflected about the
/// normal, starting slightly off the surface.
pub open spec fn reflect_ray_spec(ray: Ray, i: Intersection) -> Ray {
    let reflected_dir = vec_neg(vec_norm(vec_reflect(ray.direction, i.normal)));
    Ray { origin: pt_add(i.point, vec_scale(reflected_dir, fx_eps_offset())), direction: reflected_dir }
}

/// The transmitted ray leaving a hit by Snell's law, or `None` on total
/// internal reflection (when the term under the square root is nonpositive).
pub open spec fn refract_ray_spec(ray: Ray, i: Intersection, n1: Fx, n2: Fx) -> Option<Ray> {
    let ratio = fdiv(n1, n2);
    let m_dot_r = fneg(vec_dot(ray.direction, i.normal));
    let cos_theta_sqrd = fsub(
        fx_one(),
        fmul(fmul(ratio, ratio), fsub(fx_one(), fmul(m_dot_r, m_dot_r))),
    );
    if cos_theta_sqrd.raw > 0 {
        let cos_theta = fsqrt(cos_theta_sqrd);
        let refract_dir = vec_add(
            vec_scale(ray.direction, ratio),
            vec_scale(i.normal, fsub(fmul(ratio, m_dot_r), cos_theta)),
        );
        Some(
            Ray {
                origin: pt_add(i.point, vec_scale(refract_dir, fx_eps_offset())),
                direction: refract_dir,
            },
        )
    } else {
        None
    }
}

/// Schlick's approximation of the Fresnel reflectance.
pub fn fresnel_reflection(light_dir: &Vector3, normal: &Vector3, n1: Fx, n2: Fx) -> (r: Fx)
    ensures
        r == fresnel_reflection_spec(*light_dir, *normal, n1, n2),
{
    let m_dot_r = light_dir.dot(normal);
    let one = Fx::one();
    let r0 = n1.sub(&n2).div(&n1.add(&n2)).mul(&n1.sub(&n2).div(&n1.add(&n2)));
    r0.add(&one.sub(&r0).mul(&one.sub(&m_dot_r).powi(5)))
}

/// The Fresnel transmittance: the energy not reflected.
pub fn fresnel_refraction(light_dir: &Vector3, normal: &Vector3, n1: Fx, n2: Fx) -> (r: Fx)
    ensures
        r == fresnel_refraction_spec(*light_dir, *normal, n1, n2),
{
    Fx::one().sub(&fresnel_reflection(light_dir, normal, n1, n2))
}

/// The mirror ray leaving a hit.
pub fn reflect_ray(ray: &Ray, i: &Intersection) -> (r: Ray)
    ensures
        r == reflect_ray_spec(*ray, *i),
{
    let reflected_dir = ray.direction().reflect(&i.normal).norm().neg();
    let p = i.point.add(&reflected_dir.scalar_mul(Fx::from_raw(13)));
    Ray::new(&p, &reflected_dir)
}

/// The transmitted ray leaving a hit, or `None` on total internal reflection.
pub fn refract_ray(ray: &Ray, i: &Intersection, n1: Fx, n2: Fx) -> (r: Option<Ray>)
    ensures
        r == refract_ray_spec(*ray, *i, n1, n2),
{
    let one = Fx::one();
    let ratio = n1.div(&n2);
    let m_dot_r = ray.direction().dot(&i.normal).neg();
    let cos_theta_sqrd = one.sub(&ratio.mul(&ratio).mul(&one.sub(&m_dot_r.mul(&m_dot_r))));
    if cos_theta_sqrd.raw > 0 {
        let cos_theta = cos_theta_sqrd.sqrt();
        let refract_dir = ray.direction().scalar_mul(ratio).add(
            &i.normal.scalar_mul(ratio.mul(&m_dot_r).sub(&cos_theta)),
        );
        let p = i.point.add(&refract_dir.scalar_mul(Fx::from_raw(13)));
        Some(Ray::new(&p, &refract_dir))
    } else {
        None
    }
}

/// The shadow-tested light samples arriving at a hit: for every light of the
/// scene, in order, the direction toward it and the energy that reaches the
/// point. The sample point is moved slightly along the normal so the shadow
/// ray does not hit the surface it leaves.
pub open spec fn light_energies(s: Scene, i: Intersection) -> Seq<(Vector3, Color)> {
    let p = pt_add(i.point, vec_scale(i.normal, fx_eps_offset()));
    Seq::new(s.lights@.len(), |k: int| light_energy(s.lights@[k], s, p))
}

/// Collect the shadow-tested light samples arriving at a hit.
pub fn get_light_energy(scene: &Scene, i: &Intersection) -> (r: Vec<(Vector3, Color)>)
    requires
        scene.shapes@.len() <= 0x7fff_ffff,
    ensures
        r@ == light_energies(*scene, *i),
{
    let p = i.point.add(&i.normal.scalar_mul(Fx::from_raw(13)));
    let mut out: Vec<(Vector3, Color)> = Vec::new();
    let mut k: usize = 0;
    while k < scene.lights.len()
        invariant
            k <= scene.lights@.len(),
            scene.shapes@.len() <= 0x7fff_ffff,
            out@.len() == k as int,
            p == pt_add(i.point, vec_scale(i.normal, fx_eps_offset())),
            forall|m: int| 0 <= m < k ==> out@[m] == light_energy(scene.lights@[m], *scene, p),
        decreases scene.lights@.len() - k,
    {
        let sample = scene.lights[k].get_energy(scene, &p);
        out.push(sample);
        k = k + 1;
    }
    proof {
        assert(out@ =~= light_energies(*scene, *i));
    }
    out
}

/// The refractive-index pair at a hit: vacuum on the side the ray comes
/// from when entering, on the side it leaves when exiting.
pub open spec fn refraction_pair(i: Intersection, mat: TexturePhong) -> (Fx, Fx) {
    if i.entering {
        (fx_one(), mat.refraction_index)
    } else {
        (mat.refraction_index, fx_one())
    }
}

/// One direct-lighting term: the Fresnel-weighted energy a light sample
/// contributes through the material's response.
pub open spec fn light_term(
    sample: (Vector3, Color),
    i: Intersection,
    n1: Fx,
    n2: Fx,
    mat: TexturePhong,
) -> Color {
    color_scale(
        fresnel_reflection_spec(sample.0, i.normal, n1, n2),
        phong_reflected_energy(texture_phong_at(mat, i.tex_coord), sample.1, sample.0, i),
    )
}

/// The direct-lighting sum over the samples, folded left to right from
/// black.
pub open spec fn sum_lights(
    ls: Seq<(Vector3, Color)>,
    i: Intersection,
    n1: Fx,
    n2: Fx,
    mat: TexturePhong,
) -> Color
    decreases ls.len(),
{
    if ls.len() == 0 {
        color_black()
    } else {
        color_add(sum_lights(ls.drop_last(), i, n1, n2, mat), light_term(ls.last(), i, n1, n2, mat))
    }
}

/// The color of one ray traced through the scene to the given depth.
///
/// Zero depth is black; a miss is black. A hit folds four terms: the
/// material's ambient color times the scene ambient; the Fresnel-weighted
/// direct lighting over all shadow-tested light samples; when reflectivity
/// is positive, the Fresnel-weighted material response to the recursively
/// traced mirror ray, using the mirror ray's own direction as the light
/// direction; and when the refractive index is positive, the diffuse color
/// times the Fresnel-transmittance-weighted recursive trace of the
/// transmitted ray (black on total internal reflection).
pub open spec fn trace_spec(s: Scene, ray: Ray, depth: nat) -> Color
    decreases depth,
{
    if depth == 0 {
        color_black()
    } else {
        match scene_hit(s, ray) {
            None => color_black(),
            Some(i) => {
                let mat = s.materials@[i.material as int];
                let pair = refraction_pair(i, mat);
                let n1 = pair.0;
                let n2 = pair.1;
                let ambient = color_mul(texture_at(mat.ambient, i.tex_coord), s.ambient);
                let lights_col = sum_lights(light_energies(s, i), i, n1, n2, mat);
                let reflected = if mat.reflectivity.raw > 0 {
                    let rray = reflect_ray_spec(ray, i);
                    let energy = trace_spec(s, rray, (depth - 1) as nat);
                    color_scale(
                        fresnel_reflection_spec(rray.direction, i.normal, n1, n2),
                        phong_reflected_energy(
                            texture_phong_at(mat, i.tex_coord),
                            energy,
                            rray.direction,
                            i,
                        ),
                    )
                } else {
                    color_black()
                };
                let refracted = if mat.refraction_index.raw > 0 {
                    match refract_ray_spec(ray, i, n1, n2) {
                        Some(rr) => color_mul(
                            texture_at(mat.diffuse, i.tex_coord),
                            color_scale(
                                fresnel_refraction_spec(rr.direction, vec_neg(i.normal), n1, n2),
                                trace_spec(s, rr, (depth - 1) as nat),
                            ),
                        ),
                        None => color_mul(texture_at(mat.diffuse, i.tex_coord), color_black()),
                    }
                } else {
                    color_black()
                };
                color_add(color_add(color_add(ambient, lights_col), reflected), refracted)
            },
        }
    }
}

/// Trace one ray through the scene to the given depth.
#[verifier::rlimit(100)]
pub fn trace_ray(scene: &Scene, ray: &Ray, depth: usize) -> (c: Color)
    requires
        scene_wf(*scene),
    ensures
        c == trace_spec(*scene, *ray, depth as nat),
        depth == 0 ==> c == color_black(),
        depth > 0 && scene_hit(*scene, *ray) is None ==> c == color_black(),
    decreases depth,
{
    if depth == 0 {
        return Color::black();
    }
    let hit = scene.intersect(ray);
    match hit {
        None => Color::black(),
        Some(i) => {
            proof {
                lemma_scene_nearest_wf(scene.shapes@, *ray, scene.materials@.len() as int);
            }
            let mat = scene.material(i.material);
            let (n1, n2) = if i.entering {
                (Fx::one(), mat.refraction_index())
            } else {
                (mat.refraction_index(), Fx::one())
            };

            let ambient = mat.ambient(i.tex_coord).mul(&scene.ambient());

            let samples = get_light_energy(scene, &i);
            let mut lights_col = Color::black();
            let mut k: usize = 0;
            while k < samples.len()
                invariant
                    k <= samples@.len(),
                    lights_col == sum_lights(samples@.subrange(0, k as int), i, n1, n2, mat),
                decreases samples@.len() - k,
            {
                proof {
                    assert(samples@.subrange(0, k + 1).drop_last() =~= samples@.subrange(
                        0,
                        k as int,
                    ));
                    assert(samples@.subrange(0, k + 1).last() == samples@[k as int]);
                }
                let (ldir, lenergy) = samples[k];
                let fresnel = fresnel_reflection(&ldir, &i.normal, n1, n2);
                let term = mat.get_reflected_energy(&lenergy, &ldir, &i).scale(fresnel);
                lights_col = lights_col.add(&term);
                k = k + 1;
            }
            proof {
                assert(samples@.subrange(0, samples@.len() as int) =~= samples@);
            }

            let reflected = if mat.reflectivity().raw > 0 {
                let reflect_r = reflect_ray(ray, &i);
                let energy = trace_ray(scene, &reflect_r, depth - 1);
                let fresnel = fresnel_reflection(&reflect_r.direction(), &i.normal, n1, n2);
                mat.get_reflected_energy(&energy, &reflect_r.direction(), &i).scale(fresnel)
            } else {
                Color::black()
            };

            let refracted = if mat.refraction_index().raw > 0 {
                match refract_ray(ray, &i, n1, n2) {
                    Some(r2) => {
                        let fresnel = fresnel_refraction(&r2.direction(), &i.normal.neg(), n1, n2);
                        let energy = trace_ray(scene, &r2, depth - 1);
                        mat.diffuse(i.tex_coord).mul(&energy.scale(fresnel))
                    },
                    None => mat.diffuse(i.tex_coord).mul(&Color::black()),
                }
            } else {
                Color::black()
            };

            ambient.add(&lights_col).add(&reflected).add(&refracted)
        },
    }
}

/// The pinhole camera: the eye sits behind a fixed image plane whose extent
/// is resolution independent.
#[derive(Clone, Copy, Debug, PartialEq)]
pub struct Camera {
    pub origin: Point3,
    pub x_min: Fx,
    pub x_max: Fx,
    pub y_min: Fx,
    pub y_max: Fx,
    pub x_res: usize,
    pub y_res: usize,
}

/// The scalar denoting the integer `n`.
pub open spec fn fx_from_int(n: int) -> Fx {
    fx(n * (SCALE as int))
}

/// The primary ray through pixel `(u, v)`: from the eye toward the pixel's
/// point on the image plane, normalized. Pixel columns run left to right
/// from `x_min`, rows top to bottom from `y_max`.
pub open spec fn camera_ray(c: Camera, u: int, v: int) -> Ray {
    let x_delta = fdiv(fsub(c.x_max, c.x_min), fx_from_int(c.x_res as int));
    let y_delta = fdiv(fsub(c.y_max, c.y_min), fx_from_int(c.y_res as int));
    let x = fadd(c.x_min, fmul(fx_from_int(u), x_delta));
    let y = fsub(c.y_max, fmul(fx_from_int(v), y_delta));
    let viewpoint = Point3 { x, y, z: Fx { raw: 0 } };
    Ray { origin: c.origin, direction: vec_norm(pt_sub(viewpoint, c.origin)) }
}

impl Camera {
    /// The standard camera: eye at `(0, 0, -8)`, image plane spanning
    /// `-3..3` in both axes at `z == 0`.
    pub fn new(x_res: usize, y_res: usize) -> (c: Camera)
        ensures
            c == (Camera {
                origin: Point3 { x: Fx { raw: 0 }, y: Fx { raw: 0 }, z: Fx { raw: -524288i64 } },
                x_min: Fx { raw: -196608i64 },
                x_max: Fx { raw: 196608 },
                y_min: Fx { raw: -196608i64 },
                y_max: Fx { raw: 196608 },
                x_res,
                y_res,
            }),
    {
        Camera {
            origin: Point3::new(Fx::zero(), Fx::zero(), Fx::from_raw(-524288)),
            x_min: Fx::from_raw(-196608),
            x_max: Fx::from_raw(196608),
            y_min: Fx::from_raw(-196608),
            y_max: Fx::from_raw(196608),
            x_res,
            y_res,
        }
    }

    /// The primary ray through pixel `(u, v)`.
    pub fn get_ray(&self, u: usize, v: usize) -> (r: Ray)
        requires
            u < self.x_res,
            v < self.y_res,
            self.x_res <= 65536,
            self.y_res <= 65536,
        ensures
            r == camera_ray(*self, u as int, v as int),
    {
        let x_delta = self.x_max.sub(&self.x_min).div(&Fx::from_int(self.x_res as i64));
        let y_delta = self.y_max.sub(&self.y_min).div(&Fx::from_int(self.y_res as i64));
        let x = self.x_min.add(&Fx::from_int(u as i64).mul(&x_delta));
        let y = self.y_max.sub(&Fx::from_int(v as i64).mul(&y_delta));
        let viewpoint = Point3::new(x, y, Fx::zero());
        Ray::new(&self.origin, &viewpoint.sub(&self.origin).norm())
    }
}

/// The output image: a `w` by `h` grid of unclamped linear colors, stored
/// row-major by column index.
#[derive(Clone, Debug)]
pub struct RenderBuffer {
    pub w: usize,
    pub h: usize,
    pub buf: Vec<Color>,
}

/// The buffer holds exactly one color per pixel, at dimensions small enough
/// that every flat index fits the machine.
pub open spec fn buffer_wf(b: RenderBuffer) -> bool {
    b.buf@.len() == b.w * b.h && b.w <= 32768 && b.h <= 32768
}

/// The color of pixel `(u, v)`.
pub open spec fn pixel(b: RenderBuffer, u: int, v: int) -> Color {
    b.buf@[u * (b.h as int) + v]
}

impl RenderBuffer {
    /// An all-black buffer of the given dimensions.
    pub fn new(w: usize, h: usize) -> (b: RenderBuffer)
        requires
            w <= 32768,
            h <= 32768,
        ensures
            b.w == w,
            b.h == h,
            buffer_wf(b),
            forall|u: int, v: int| 0 <= u < w && 0 <= v < h ==> pixel(b, u, v) == color_black(),
    {
        proof {
            assert(w * h <= 0x4000_0000) by (nonlinear_arith)
                requires
                    w <= 32768 && h <= 32768,
            ;
        }
        let total: usize = w * h;
        let mut buf: Vec<Color> = Vec::new();
        let mut k: usize = 0;
        while k < total
            invariant
                k <= total,
                buf@.len() == k as int,
                forall|m: int| 0 <= m < k ==> buf@[m] == color_black(),
            decreases total - k,
        {
            buf.push(Color::black());
            k = k + 1;
        }
        let b = RenderBuffer { w, h, buf };
        proof {
            assert forall|u: int, v: int| 0 <= u < w && 0 <= v < h implies pixel(b, u, v)
                == color_black() by {
                assert(u * (h as int) + v < w * h) by (nonlinear_arith)
                    requires
                        0 <= u < w && 0 <= v < h,
                ;
                assert(u * (h as int) + v >= 0) by (nonlinear_arith)
                    requires
                        0 <= u && 0 <= v,
                ;
            }
        }
        b
    }

    /// The color of pixel `(u, v)`.
    pub fn get_pixel(&self, u: usize, v: usize) -> (c: Color)
        requires
            buffer_wf(*self),
            u < self.w,
            v < self.h,
        ensures
            c == pixel(*self, u as int, v as int),
    {
        proof {
            lemma_pixel_index(*self, u as int, v as int);
        }
        self.buf[u * self.h + v]
    }

    /// Overwrite pixel `(u, v)`.
    pub fn set_pixel(&mut self, u: usize, v: usize, c: Color)
        requires
            buffer_wf(*old(self)),
            u < old(self).w,
            v < old(self).h,
        ensures
            buffer_wf(*final(self)),
            final(self).w == old(self).w,
            final(self).h == old(self).h,
            pixel(*final(self), u as int, v as int) == c,
            forall|u2: int, v2: int|
                0 <= u2 < old(self).w && 0 <= v2 < old(self).h && !(u2 == u as int && v2
                    == v as int) ==> pixel(*final(self), u2, v2) == pixel(*old(self), u2, v2),
    {
        proof {
            lemma_pixel_index(*self, u as int, v as int);
        }
        let idx: usize = u * self.h + v;
        self.buf.set(idx, c);
        proof {
            let ghost hh = old(self).h as int;
            let ghost ui = u as int;
            let ghost vi = v as int;
            assert forall|u2: int, v2: int|
                0 <= u2 < old(self).w && 0 <= v2 < old(self).h && !(u2 == u as int && v2
                    == v as int) implies pixel(*self, u2, v2) == pixel(*old(self), u2, v2) by {
                lemma_pixel_index(*old(self), u2, v2);
                assert(u2 * hh + v2 != ui * hh + vi) by (nonlinear_arith)
                    requires
                        0 <= u2 && 0 <= v2 < hh && 0 <= ui && 0 <= vi < hh && !(u2 == ui && v2
                            == vi),
                ;
            }
        }
    }
}

/// A pixel's flat index lies inside a well-formed buffer.
proof fn lemma_pixel_index(b: RenderBuffer, u: int, v: int)
    requires
        buffer_wf(b),
        0 <= u < b.w,
        0 <= v < b.h,
    ensures
        0 <= u * (b.h as int) + v < b.buf@.len(),
        u * (b.h as int) + v < 0x4000_0000,
{
    assert(u * (b.h as int) + v < b.w * b.h) by (nonlinear_arith)
        requires
            0 <= u < b.w && 0 <= v < b.h,
    ;
    assert(b.w * b.h <= 0x4000_0000) by (nonlinear_arith)
        requires
            b.w <= 32768 && b.h <= 32768,
    ;
    assert(u * (b.h as int) + v >= 0) by (nonlinear_arith)
        requires
            0 <= u && 0 <= v,
    ;
}

/// Render the scene into the buffer: every pixel gets the traced color of
/// its camera ray.
pub fn render(camera: &Camera, scene: &Scene, buffer: &mut RenderBuffer, depth: usize)
    requires
        scene_wf(*scene),
        buffer_wf(*old(buffer)),
        old(buffer).w == camera.x_res,
        old(buffer).h == camera.y_res,
        camera.x_res <= 65536,
        camera.y_res <= 65536,
    ensures
        buffer_wf(*final(buffer)),
        final(buffer).w == old(buffer).w,
        final(buffer).h == old(buffer).h,
        forall|u: int, v: int|
            0 <= u < camera.x_res && 0 <= v < camera.y_res ==> pixel(*final(buffer), u, v)
                == trace_spec(*scene, camera_ray(*camera, u, v), depth as nat),
{
    let mut u: usize = 0;
    while u < camera.x_res
        invariant
            u <= camera.x_res,
            scene_wf(*scene),
            buffer_wf(*buffer),
            buffer.w == camera.x_res,
            buffer.h == camera.y_res,
            camera.x_res <= 65536,
            camera.y_res <= 65536,
            forall|u2: int, v2: int|
                0 <= u2 < u && 0 <= v2 < camera.y_res ==> pixel(*buffer, u2, v2) == trace_spec(
                    *scene,
                    camera_ray(*camera, u2, v2),
                    depth as nat,
                ),
        decreases camera.x_res - u,
    {
        let mut v: usize = 0;
        while v < camera.y_res
            invariant
                u < camera.x_res,
                v <= camera.y_res,
                scene_wf(*scene),
                buffer_wf(*buffer),
                buffer.w == camera.x_res,
                buffer.h == camera.y_res,
                camera.x_res <= 65536,
                camera.y_res <= 65536,
                forall|u2: int, v2: int|
                    0 <= u2 < u && 0 <= v2 < camera.y_res ==> pixel(*buffer, u2, v2) == trace_spec(
                        *scene,
                        camera_ray(*camera, u2, v2),
                        depth as nat,
                    ),
                forall|v2: int|
                    0 <= v2 < v ==> pixel(*buffer, u as int, v2) == trace_spec(
                        *scene,
                        camera_ray(*camera, u as int, v2),
                        depth as nat,
                    ),
            decreases camera.y_res - v,
        {
            let ray = camera.get_ray(u, v);
            let c = trace_ray(scene, &ray, depth);
            buffer.set_pixel(u, v, c);
            v = v + 1;
        }
        u = u + 1;
    }
}

/// One light sample contributes black through an inert material.
proof fn lemma_light_term_inert(
    sample: (Vector3, Color),
    i: Intersection,
    n1: Fx,
    n2: Fx,
    mat: TexturePhong,
)
    requires
        crate::material::inert_material(mat),
    ensures
        light_term(sample, i, n1, n2, mat) == color_black(),
{
    crate::color::lemma_color_mul_black(color_scale(vec_dot(sample.0, i.normal), sample.1));
    let m = crate::material::texture_phong_at(mat, i.tex_coord);
    let h = vec_norm(vec_add(vec_norm(i.eye_dir), vec_norm(sample.0)));
    let m_dot_h = vec_dot(i.normal, h);
    if m_dot_h.raw >= 0 {
        crate::color::lemma_color_mul_black(
            color_scale(crate::fixed::fpowi(m_dot_h, mat.power as nat), sample.1),
        );
    }
    crate::fixed::lemma_fx_mul_zero(fresnel_reflection_spec(sample.0, i.normal, n1, n2).raw as int);
}

/// The direct-lighting sum through an inert material is black, whatever the
/// samples.
proof fn lemma_sum_lights_inert(
    ls: Seq<(Vector3, Color)>,
    i: Intersection,
    n1: Fx,
    n2: Fx,
    mat: TexturePhong,
)
    requires
        crate::material::inert_material(mat),
    ensures
        sum_lights(ls, i, n1, n2, mat) == color_black(),
    decreases ls.len(),
{
    if ls.len() > 0 {
        lemma_sum_lights_inert(ls.drop_last(), i, n1, n2, mat);
        lemma_light_term_inert(ls.last(), i, n1, n2, mat);
    }
}

/// A fully inert material always yields black from the tracer, for any scene,
/// ray and depth, by construction of the summation: when the nearest hit
/// wears an inert material, every ambient, diffuse and specular contribution
/// multiplies a black color, and zero reflectivity and refractivity cut both
/// recursive branches.
pub proof fn lemma_inert_trace_black(s: Scene, ray: Ray, depth: nat)
    requires
        match scene_hit(s, ray) {
            Some(i) => 0 <= i.material < s.materials@.len() && crate::material::inert_material(
                s.materials@[i.material as int],
            ),
            None => true,
        },
    ensures
        trace_spec(s, ray, depth) == color_black(),
{
    if depth > 0 {
        match scene_hit(s, ray) {
            None => {},
            Some(i) => {
                let mat = s.materials@[i.material as int];
                let pair = refraction_pair(i, mat);
                crate::color::lemma_color_mul_black(s.ambient);
                lemma_sum_lights_inert(light_energies(s, i), i, pair.0, pair.1, mat);
            },
        }
    }
}

/// The scene-level corollary: where every material of a well-formed scene is
/// inert, every trace is black.
pub proof fn lemma_all_inert_scene_black(s: Scene, ray: Ray, depth: nat)
    requires
        scene_wf(s),
        forall|j: int|
            0 <= j < s.materials@.len() ==> crate::material::inert_material(
                #[trigger] s.materials@[j],
            ),
    ensures
        trace_spec(s, ray, depth) == color_black(),
{
    lemma_scene_nearest_wf(s.shapes@, ray, s.materials@.len() as int);
    lemma_inert_trace_black(s, ray, depth);
}

} // verus!
