//! Primitive intersection, shading and color arithmetic.

use rustracer::color::Color;
use rustracer::fixed::Fx;
use rustracer::material::{Phong, TexturePhong};
use rustracer::matrix::Matrix;
use rustracer::plane::Plane;
use rustracer::point::Point3;
use rustracer::ray::Ray;
use rustracer::render_tree::{RayTree, RayTreeNode};
use rustracer::sphere::Sphere;
use rustracer::triangle::Triangle;
use rustracer::vector3::Vector3;

fn fxi(n: i64) -> Fx {
    Fx::from_int(n)
}

fn v3(x: i64, y: i64, z: i64) -> Vector3 {
    Vector3::new(fxi(x), fxi(y), fxi(z))
}

fn p3(x: i64, y: i64, z: i64) -> Point3 {
    Point3::new(fxi(x), fxi(y), fxi(z))
}

fn ratio(n: i64, d: i64) -> Fx {
    fxi(n).div(&fxi(d))
}

fn rgb(r: Fx, g: Fx, b: Fx) -> Color {
    Color::new(r, g, b)
}

fn assert_color_close(a: &Color, b: &Color, eps: i64) {
    assert!(a.r.sub(&b.r).abs().raw < eps, "r off: {} vs {}", a.r.raw, b.r.raw);
    assert!(a.g.sub(&b.g).abs().raw < eps, "g off: {} vs {}", a.g.raw, b.g.raw);
    assert!(a.b.sub(&b.b).abs().raw < eps, "b off: {} vs {}", a.b.raw, b.b.raw);
}

#[test]
fn color_basic() {
    let c1 = rgb(ratio(2, 10), ratio(2, 10), ratio(2, 10));
    let c2 = rgb(ratio(1, 10), ratio(2, 10), ratio(3, 10));

    assert_color_close(
        &rgb(ratio(2, 100), ratio(4, 100), ratio(6, 100)),
        &c1.mul(&c2),
        2,
    );
    assert_color_close(
        &rgb(ratio(1, 100), ratio(2, 100), ratio(3, 100)),
        &c2.scale(ratio(1, 10)),
        2,
    );
    assert_color_close(
        &rgb(ratio(3, 10), ratio(4, 10), ratio(5, 10)),
        &c1.add(&c2),
        2,
    );
}

#[test]
fn sphere_basic() {
    let mut sph = Sphere::new(0);

    assert_eq!(
        Matrix::identity(),
        sph.transform,
        "A new sphere should have the identity matrix for its transform"
    );

    let ok = sph.set_transform(&Matrix::scale(fxi(2), fxi(2), fxi(2)));
    assert!(ok);
    assert_eq!(
        Matrix::scale(fxi(2), fxi(2), fxi(2)),
        sph.transform,
        "Sphere did not scale as expected"
    );
}

#[test]
fn intersection_no_transform() {
    let sph = Sphere::new(0);

    let ray = Ray::new(&p3(0, 0, 2), &v3(0, 0, -1));
    let intersect = sph.intersect(&ray);
    assert!(intersect.is_some());
    assert_eq!(fxi(1), intersect.unwrap().t);

    let miss = Ray::new(&p3(0, 0, 2), &v3(0, 1, 0));
    let intersect = sph.intersect(&miss);
    assert!(intersect.is_none());

    let edge = Ray::new(&p3(0, 1, 2), &v3(0, 0, -1));
    let intersect = sph.intersect(&edge);
    assert!(intersect.is_some());
    assert_eq!(fxi(2), intersect.unwrap().t);
}

#[test]
fn intersection_transform() {
    let mut sph = Sphere::new(0);

    let transform = Matrix::translate(fxi(0), fxi(2), fxi(-2)).mat_mul(&Matrix::scale(
        fxi(2),
        fxi(2),
        fxi(2),
    ));
    assert!(sph.set_transform(&transform));

    let ray = Ray::new(&p3(0, 0, 2), &v3(0, 0, -1));
    let intersect = sph.intersect(&ray);
    assert!(intersect.is_some());
    assert_eq!(fxi(4), intersect.unwrap().t);

    let miss = Ray::new(&p3(0, 0, 2), &v3(0, 1, 0));
    let intersect = sph.intersect(&miss);
    assert!(intersect.is_none());

    let edge = Ray::new(&p3(0, 2, 2), &v3(0, 0, -1));
    let intersect = sph.intersect(&edge);
    assert!(intersect.is_some());
    assert_eq!(fxi(2), intersect.unwrap().t);
}

#[test]
fn triangle_creation() {
    // A triangle wound counterclockwise has its normal on the +z axis.
    let tri = Triangle::new(&p3(0, 0, 0), &p3(1, 0, 0), &p3(0, 1, 0), 0);
    assert_eq!(v3(0, 0, 1), tri.normal);

    // Wound clockwise, the normal points along the -z axis.
    let tri = Triangle::new(&p3(1, 0, 0), &p3(0, 0, 0), &p3(0, 1, 0), 0);
    assert_eq!(v3(0, 0, -1), tri.normal);
}

#[test]
fn intersection() {
    let tri = Triangle::new(&p3(2, -2, 0), &p3(-2, -2, 0), &p3(-2, 2, 0), 0);

    let ray = Ray::new(&p3(0, 0, -4), &v3(0, 0, 1));

    let i = tri.intersect(&ray);
    assert!(i.is_some());
    let i = i.unwrap();

    assert_eq!(fxi(4), i.t);
    assert_eq!(p3(0, 0, 0), i.point);
    assert_eq!(v3(0, 0, -1), i.normal);
    assert_eq!(v3(0, 0, -1), i.eye_dir);
    assert_eq!(true, i.entering);
}

#[test]
fn behind_ray_not_intersection() {
    let tri = Triangle::new(&p3(2, -2, 0), &p3(-2, -2, 0), &p3(-2, 2, 0), 0);

    let ray = Ray::new(&p3(0, 0, -4), &v3(0, 0, -1));

    let i = tri.intersect(&ray);
    assert!(i.is_none());
}

#[test]
fn shading() {
    let half_white = rgb(ratio(1, 2), ratio(1, 2), ratio(1, 2));
    let material = Phong::new(half_white, half_white, half_white, 60, Fx::zero(), Fx::zero());

    let tri = Triangle::new(&p3(2, -1, 0), &p3(-1, -1, 0), &p3(-1, 2, 0), 0);

    let ray = Ray::new(&p3(0, 0, -4), &v3(0, 0, 1));

    let i = tri.intersect(&ray).unwrap();

    let light_pos = p3(0, 0, -4);
    let light_color = Color::white();
    let energy =
        material.get_reflected_energy(&light_color, &light_pos.sub(&i.point).norm(), &i);

    assert_eq!(Color::white(), energy);
}

#[test]
fn texture_coords() {
    let normal = v3(0, 1, 0);
    let plane = Plane::new(&p3(0, 0, 0), &normal, 0);

    assert_eq!(Fx::zero(), normal.dot(&plane.u));
}

fn new_int() -> rustracer::intersection::Intersection {
    rustracer::intersection::Intersection {
        id: 0,
        t: Fx::zero(),
        material: 0,
        point: Point3::new(Fx::zero(), Fx::zero(), Fx::zero()),
        eye_dir: Vector3::new(Fx::zero(), Fx::zero(), Fx::zero()),
        normal: Vector3::new(Fx::zero(), Fx::zero(), Fx::zero()),
        entering: false,
        tex_coord: (Fx::zero(), Fx::zero()),
    }
}

fn branch(reflected: Option<RayTreeNode>, refracted: Option<RayTreeNode>) -> RayTreeNode {
    let zero = Vector3::new(Fx::zero(), Fx::zero(), Fx::zero());
    RayTreeNode::Branch {
        isect: new_int(),
        lights: vec![],
        reflected: reflected.map(|n| (zero, Box::new(n))),
        refracted: refracted.map(|n| (zero, Box::new(n))),
    }
}

#[test]
fn ray_tree_size() {
    let mut t = RayTree::new();
    assert_eq!(0, t.size());

    t.root = branch(None, None);
    assert_eq!(1, t.size());

    let r = branch(None, None);
    t.root = branch(None, Some(r));
    assert_eq!(2, t.size());

    let l = branch(None, None);
    let r = branch(None, None);
    t.root = branch(Some(l), Some(r));
    assert_eq!(3, t.size());

    let ll = branch(None, None);
    let lr = branch(None, None);
    let l = branch(Some(ll), Some(lr));
    let rl = branch(None, None);
    let rr = branch(None, None);
    let r = branch(Some(rl), Some(rr));
    t.root = branch(Some(l), Some(r));
    assert_eq!(7, t.size());
}

#[test]
fn checker_texture() {
    let a = Color::white();
    let b = Color::black();
    let tex = rustracer::material::Texture::Checker(a, b);
    // Both coordinates in the first unit square, same parity: first color.
    let c = rustracer::material::texture_color(&tex, (ratio(1, 2), ratio(1, 2)));
    assert_eq!(Color::white(), c);
    // One step along u flips the parity.
    let c = rustracer::material::texture_color(&tex, (ratio(3, 2), ratio(1, 2)));
    assert_eq!(Color::black(), c);
    // A solid texture ignores the coordinates.
    let solid = rustracer::material::Texture::Solid(a);
    assert_eq!(Color::white(), rustracer::material::texture_color(&solid, (fxi(9), fxi(-7))));
}

#[test]
fn singular_placement_is_refused() {
    // The zero matrix has determinant zero: placement fails, the shape keeps
    // its previous transform.
    let mut sph = Sphere::new(0);
    let ok = sph.set_transform(&Matrix::new());
    assert!(!ok);
    assert_eq!(Matrix::identity(), sph.transform);
    assert!(Matrix::new().inverse().is_none());
    assert!(Matrix::identity().inverse().is_some());

    let mut m = Matrix::identity();
    let ok = m.invert();
    assert!(ok);
    assert_eq!(Matrix::identity(), m);
}

#[test]
fn quadratic_double_root() {
    // x^2 - 4x + 4 has the double root 2.
    let r = rustracer::sphere::solve_quadratic(fxi(1), fxi(-4), fxi(4));
    assert_eq!(Some((fxi(2), fxi(2))), r);
    // A negative discriminant yields no roots.
    let r = rustracer::sphere::solve_quadratic(fxi(1), fxi(0), fxi(1));
    assert!(r.is_none());
}

#[test]
fn color_export_clamps() {
    let c = Color::new(fxi(2), fxi(-1), ratio(1, 2));
    let (r, g, b) = c.as_u8();
    assert_eq!(255, r);
    assert_eq!(0, g);
    assert_eq!(127, b);
}

#[test]
fn material_at_samples_textures() {
    let checker = rustracer::material::Texture::Checker(Color::white(), Color::black());
    let mat = TexturePhong::new(
        checker,
        checker,
        checker,
        60,
        Fx::zero(),
        Fx::zero(),
    );
    let sampled = mat.at((ratio(1, 2), ratio(1, 2)));
    assert_eq!(Color::white(), sampled.ambient);
    assert_eq!(Color::white(), sampled.diffuse);
    assert_eq!(60, sampled.power);
}
