//! End-to-end tracer and ray-forest behavior on small scenes.

use rustracer::color::Color;
use rustracer::fixed::Fx;
use rustracer::material::{Texture, TexturePhong};
use rustracer::matrix::Matrix;
use rustracer::point::Point3;
use rustracer::ray::Ray;
use rustracer::render::{render, trace_ray, Camera, RenderBuffer};
use rustracer::render_tree::{generate_ray_forest, render_forest, render_forest_filter, IdSet};
use rustracer::scene::{Light, PointLight, Scene, Shape};
use rustracer::sphere::Sphere;
use rustracer::vector3::Vector3;

fn fxi(n: i64) -> Fx {
    Fx::from_int(n)
}

fn v3(x: i64, y: i64, z: i64) -> Vector3 {
    Vector3::new(fxi(x), fxi(y), fxi(z))
}

fn p3(x: i64, y: i64, z: i64) -> Point3 {
    Point3::new(fxi(x), fxi(y), fxi(z))
}

fn ratio(n: i64, d: i64) -> Fx {
    fxi(n).div(&fxi(d))
}

fn grey(n: i64, d: i64) -> Color {
    Color::new(ratio(n, d), ratio(n, d), ratio(n, d))
}

/// A small scene: a reflective red sphere, a glassy sphere, one light.
fn sample_scene() -> Scene {
    let mut scene = Scene::new();

    let red = Color::new(Fx::one(), Fx::zero(), Fx::zero());
    let m0 = scene.add_material(TexturePhong::solid(
        grey(1, 10),
        red,
        Color::white(),
        60,
        ratio(1, 2),
        Fx::zero(),
    ));
    let mut sph = Sphere::new(m0);
    assert!(sph.set_transform(&Matrix::translate(fxi(-1), fxi(0), fxi(0))));
    scene.add_shape(Shape::Sphere(sph));

    let m1 = scene.add_material(TexturePhong::solid(
        Color::black(),
        Color::white(),
        Color::white(),
        60,
        ratio(7, 10),
        ratio(1333, 1000),
    ));
    let mut sph2 = Sphere::new(m1);
    assert!(sph2.set_transform(&Matrix::translate(fxi(1), fxi(-1), fxi(0))));
    scene.add_shape(Shape::Sphere(sph2));

    scene.add_light(Light::Point(PointLight::new(
        p3(4, 4, 0),
        Color::new(Fx::one(), Fx::zero(), Fx::zero()),
    )));
    scene.set_ambient(&grey(1, 10));
    scene
}

#[test]
fn trace_at_zero_depth_is_black() {
    let scene = sample_scene();
    let ray = Ray::new(&p3(0, 0, -8), &v3(0, 0, 1));
    assert_eq!(Color::black(), trace_ray(&scene, &ray, 0));
}

#[test]
fn miss_yields_black() {
    let scene = sample_scene();
    let ray = Ray::new(&p3(0, 0, -8), &v3(0, 0, -1));
    assert_eq!(Color::black(), trace_ray(&scene, &ray, 5));
}

#[test]
fn unit_sphere_axis_hit() {
    // A unit sphere at the origin, hit head on: parameter one, entering,
    // normal straight back along the ray.
    let sph = Sphere::new(0);
    let ray = Ray::new(&p3(0, 0, 2), &v3(0, 0, -1));
    let i = sph.intersect(&ray).expect("the axis ray must hit");
    assert_eq!(fxi(1), i.t);
    assert!(i.entering);
    assert_eq!(v3(0, 0, 1), i.normal);
    assert_eq!(p3(0, 0, 1), i.point);
}

#[test]
fn inert_material_traces_black() {
    let mut scene = Scene::new();
    let m = scene.add_material(TexturePhong::solid(
        Color::black(),
        Color::black(),
        Color::black(),
        60,
        Fx::zero(),
        Fx::zero(),
    ));
    scene.add_shape(Shape::Sphere(Sphere::new(m)));
    scene.add_light(Light::Point(PointLight::new(p3(4, 4, 0), Color::white())));
    scene.set_ambient(&Color::white());

    // A ray that hits the sphere, at several depths.
    let ray = Ray::new(&p3(0, 0, 2), &v3(0, 0, -1));
    assert!(scene.intersect(&ray).is_some());
    for depth in 0..6 {
        assert_eq!(Color::black(), trace_ray(&scene, &ray, depth));
    }
}

#[test]
fn forest_matches_direct_trace() {
    // The cached path must reproduce the direct trace pixel for pixel.
    let scene = sample_scene();
    let camera = Camera::new(8, 8);

    let mut direct = RenderBuffer::new(8, 8);
    render(&camera, &scene, &mut direct, 4);

    let mut cached = RenderBuffer::new(8, 8);
    rustracer::render_tree::render(&camera, &scene, &mut cached, 4);

    for u in 0..8 {
        for v in 0..8 {
            assert_eq!(direct.get_pixel(u, v), cached.get_pixel(u, v), "pixel ({}, {})", u, v);
        }
    }
}

#[test]
fn forest_reduction_survives_material_edits() {
    // Re-reducing after a material edit equals a fresh direct trace of the
    // edited scene: the forest stays valid across material-only changes.
    let mut scene = sample_scene();
    let camera = Camera::new(6, 6);
    let forest = generate_ray_forest(&camera, &scene, 6, 6, 3);

    // Brighten the first material's diffuse color through the arena.
    scene.set_material(
        0,
        TexturePhong::solid(
            grey(1, 10),
            Color::white(),
            Color::white(),
            60,
            ratio(1, 2),
            Fx::zero(),
        ),
    );

    let mut reduced = RenderBuffer::new(6, 6);
    let ambient = scene.ambient();
    render_forest(&forest, &mut reduced, &ambient, &scene.materials);

    let mut direct = RenderBuffer::new(6, 6);
    render(&camera, &scene, &mut direct, 3);

    for u in 0..6 {
        for v in 0..6 {
            assert_eq!(direct.get_pixel(u, v), reduced.get_pixel(u, v), "pixel ({}, {})", u, v);
        }
    }
}

#[test]
fn filter_with_empty_set_keeps_buffer() {
    let scene = sample_scene();
    let camera = Camera::new(6, 6);
    let forest = generate_ray_forest(&camera, &scene, 6, 6, 3);

    let mut buffer = RenderBuffer::new(6, 6);
    let ambient = scene.ambient();
    render_forest(&forest, &mut buffer, &ambient, &scene.materials);
    let before: Vec<Color> = buffer.buf.clone();

    render_forest_filter(&forest, &mut buffer, &ambient, &scene.materials, &IdSet::new());
    assert_eq!(before, buffer.buf);
}

#[test]
fn filter_updates_exactly_marked_pixels() {
    let scene = sample_scene();
    let camera = Camera::new(8, 8);
    let forest = generate_ray_forest(&camera, &scene, 8, 8, 3);

    let mut full = RenderBuffer::new(8, 8);
    let ambient = scene.ambient();
    render_forest(&forest, &mut full, &ambient, &scene.materials);

    // Filter the sphere with id 1 into a fresh black buffer.
    let mut mutated = IdSet::new();
    mutated.insert(1);
    let mut partial = RenderBuffer::new(8, 8);
    render_forest_filter(&forest, &mut partial, &ambient, &scene.materials, &mutated);

    let mut updated: usize = 0;
    for u in 0..8 {
        for v in 0..8 {
            if forest.forest[u][v].shapes.contains(1) {
                updated += 1;
                assert_eq!(full.get_pixel(u, v), partial.get_pixel(u, v));
            } else {
                assert_eq!(Color::black(), partial.get_pixel(u, v));
            }
        }
    }
    assert_eq!(updated, forest.trees_with(1));
    assert!(updated > 0, "the scene must touch the marked sphere somewhere");
}

#[test]
fn nearest_of_overlapping_spheres_wins() {
    // Two overlapping unit spheres along one ray: the nearer sphere's
    // material is returned, never the farther one's, whatever the insertion
    // order.
    let ray = Ray::new(&p3(0, 0, 5), &v3(0, 0, -1));

    let build = |near_first: bool| -> Scene {
        let mut scene = Scene::new();
        let m_near = scene.add_material(TexturePhong::solid(
            Color::white(),
            Color::white(),
            Color::white(),
            60,
            Fx::zero(),
            Fx::zero(),
        ));
        let m_far = scene.add_material(TexturePhong::solid(
            Color::black(),
            Color::black(),
            Color::black(),
            60,
            Fx::zero(),
            Fx::zero(),
        ));
        let mut near = Sphere::new(m_near);
        assert!(near.set_transform(&Matrix::translate(Fx::zero(), Fx::zero(), ratio(1, 2))));
        let far = Sphere::new(m_far);
        if near_first {
            scene.add_shape(Shape::Sphere(near));
            scene.add_shape(Shape::Sphere(far));
        } else {
            scene.add_shape(Shape::Sphere(far));
            scene.add_shape(Shape::Sphere(near));
        }
        scene
    };

    let scene = build(true);
    let hit = scene.intersect(&ray).expect("the ray runs through both spheres");
    assert_eq!(0, hit.material, "the nearer sphere's material must win");
    assert_eq!(0, hit.id);

    let scene = build(false);
    let hit = scene.intersect(&ray).expect("the ray runs through both spheres");
    assert_eq!(0, hit.material, "the nearer sphere still wins after reordering");
    assert_eq!(1, hit.id);

    // Two identical spheres: the tie keeps the first-inserted shape.
    let mut scene = Scene::new();
    let m0 = scene.add_material(TexturePhong::solid(
        Color::white(),
        Color::white(),
        Color::white(),
        60,
        Fx::zero(),
        Fx::zero(),
    ));
    let m1 = scene.add_material(TexturePhong::solid(
        Color::black(),
        Color::black(),
        Color::black(),
        60,
        Fx::zero(),
        Fx::zero(),
    ));
    scene.add_shape(Shape::Sphere(Sphere::new(m0)));
    scene.add_shape(Shape::Sphere(Sphere::new(m1)));
    let hit = scene.intersect(&ray).expect("the ray hits both");
    assert_eq!(0, hit.id, "ties keep the first-encountered shape");
    assert_eq!(0, hit.material);
}

#[test]
fn shadowed_point_darkens() {
    // A blocking sphere between the light and the surface removes the direct
    // lighting term.
    let lit = {
        let mut scene = Scene::new();
        let m = scene.add_material(TexturePhong::solid(
            grey(1, 10),
            Color::white(),
            Color::white(),
            60,
            Fx::zero(),
            Fx::zero(),
        ));
        scene.add_shape(Shape::Sphere(Sphere::new(m)));
        scene.add_light(Light::Point(PointLight::new(p3(0, 10, 0), Color::white())));
        scene.set_ambient(&grey(1, 10));
        let ray = Ray::new(&p3(0, 5, 0), &v3(0, -1, 0));
        trace_ray(&scene, &ray, 2)
    };
    let shadowed = {
        let mut scene = Scene::new();
        let m = scene.add_material(TexturePhong::solid(
            grey(1, 10),
            Color::white(),
            Color::white(),
            60,
            Fx::zero(),
            Fx::zero(),
        ));
        scene.add_shape(Shape::Sphere(Sphere::new(m)));
        let mut blocker = Sphere::new(m);
        assert!(blocker.set_transform(&Matrix::translate(fxi(0), fxi(5), fxi(0))));
        scene.add_shape(Shape::Sphere(blocker));
        scene.add_light(Light::Point(PointLight::new(p3(0, 10, 0), Color::white())));
        scene.set_ambient(&grey(1, 10));
        let ray = Ray::new(&p3(0, 5, 0), &v3(0, -1, 0));
        trace_ray(&scene, &ray, 2)
    };
    assert_ne!(lit, shadowed);
}

#[test]
fn fresnel_matched_media_reflect_nothing() {
    // With equal refractive indices and light along the normal, Schlick's
    // approximation reflects nothing and transmits everything.
    let n = v3(0, 1, 0);
    let r = rustracer::render::fresnel_reflection(&n, &n, Fx::one(), Fx::one());
    assert_eq!(Fx::zero(), r);
    let t = rustracer::render::fresnel_refraction(&n, &n, Fx::one(), Fx::one());
    assert_eq!(Fx::one(), t);
}

#[test]
fn id_set_operations() {
    let mut s = IdSet::new();
    assert!(!s.contains(3));
    s.insert(3);
    s.insert(3);
    s.insert(7);
    assert!(s.contains(3));
    assert!(s.contains(7));
    assert!(!s.contains(4));

    let mut t = IdSet::new();
    assert!(!s.intersects(&t));
    t.insert(7);
    assert!(s.intersects(&t));
    assert!(t.intersects(&s));
}

#[test]
fn camera_primary_ray() {
    let camera = Camera::new(1, 1);
    let ray = camera.get_ray(0, 0);
    assert_eq!(p3(0, 0, -8), ray.origin());
    let viewpoint = p3(-3, 3, 0);
    assert_eq!(viewpoint.sub(&p3(0, 0, -8)).norm(), ray.direction());
}

#[test]
fn cube_is_twelve_triangles() {
    let cube = rustracer::cube::Cube::new(0);
    assert_eq!(12, cube.triangles.len());
    // A ray down the z axis hits the front face half a unit out.
    let ray = Ray::new(&p3(0, 0, -4), &v3(0, 0, 1));
    let i = cube.intersect(&ray).expect("the axis ray must hit the cube");
    assert_eq!(ratio(7, 2), i.t);

    let texture = rustracer::material::Texture::Solid(Color::white());
    let mut scene = Scene::new();
    let m = scene.add_material(TexturePhong::new(texture, texture, texture, 60, Fx::zero(), Fx::zero()));
    let mut cube = rustracer::cube::Cube::new(m);
    assert!(cube.set_transform(&Matrix::scale(fxi(2), fxi(2), fxi(2))));
    let i = cube.intersect(&ray).expect("the scaled cube is still hit");
    assert_eq!(fxi(3), i.t);
}

#[test]
fn fixed_point_arithmetic() {
    assert_eq!(131072, fxi(2).raw);
    assert_eq!(fxi(5), fxi(2).add(&fxi(3)));
    assert_eq!(fxi(6), fxi(2).mul(&fxi(3)));
    assert_eq!(ratio(2, 3), fxi(2).div(&fxi(3)));
    assert_eq!(fxi(3), fxi(9).sqrt());
    assert_eq!(fxi(8), fxi(2).powi(3));
    assert_eq!(fxi(2), fxi(-2).abs());
    // Division by zero is total and yields zero.
    assert_eq!(Fx::zero(), fxi(5).div(&Fx::zero()));
    // Out-of-range values saturate.
    assert_eq!(rustracer::fixed::MAX_RAW, Fx::from_int(i64::MAX).raw);
}

#[test]
fn fresnel_schlick_exact() {
    // Light along the normal between media of indices one and two:
    // the reflectance is ((1-2)/(1+2))^2, about one ninth, and the
    // grazing term vanishes.
    let n = v3(0, 1, 0);
    let r = rustracer::render::fresnel_reflection(&n, &n, fxi(1), fxi(2));
    assert_eq!(Fx::from_raw(7281), r);
}

#[test]
fn refraction_straight_through() {
    // A ray straight along the normal refracts without bending, whatever the
    // index ratio.
    let sph = Sphere::new(0);
    let ray = Ray::new(&p3(0, 0, 2), &v3(0, 0, -1));
    let i = sph.intersect(&ray).unwrap();
    let refracted = rustracer::render::refract_ray(&ray, &i, fxi(1), fxi(2))
        .expect("no total internal reflection straight on");
    assert_eq!(v3(0, 0, -1), refracted.direction());

    // A grazing ray against a much thinner medium reflects internally: the
    // term under the square root goes nonpositive and no ray comes back.
    let grazing = Ray::new(&p3(0, 0, 0), &v3(1, 0, 0));
    let side = rustracer::intersection::Intersection {
        id: 0,
        t: Fx::zero(),
        material: 0,
        point: p3(0, 0, 0),
        eye_dir: v3(-1, 0, 0),
        normal: v3(0, 1, 0),
        entering: false,
        tex_coord: (Fx::zero(), Fx::zero()),
    };
    let tir = rustracer::render::refract_ray(&grazing, &side, fxi(10), fxi(1));
    assert!(tir.is_none());
}
