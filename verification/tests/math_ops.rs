//! Vector, point, ray and matrix arithmetic, checked on exact fixed-point
//! values.

use rustracer::fixed::Fx;
use rustracer::matrix::Matrix;
use rustracer::point::Point3;
use rustracer::ray::Ray;
use rustracer::vector3::Vector3;

fn fxi(n: i64) -> Fx {
    Fx::from_int(n)
}

fn v3(x: i64, y: i64, z: i64) -> Vector3 {
    Vector3::new(fxi(x), fxi(y), fxi(z))
}

fn p3(x: i64, y: i64, z: i64) -> Point3 {
    Point3::new(fxi(x), fxi(y), fxi(z))
}

/// Rotation by 90 degrees: cosine 0, sine 1.
fn rot90() -> (Fx, Fx) {
    (Fx::zero(), Fx::one())
}

/// Rotation by 270 degrees: cosine 0, sine -1.
fn rot270() -> (Fx, Fx) {
    (Fx::zero(), Fx::one().neg())
}

fn assert_vec_close(a: &Vector3, b: &Vector3, eps: i64) {
    let d = a.sub(b);
    assert!(d.x.abs().raw < eps, "x off: {} vs {}", a.x.raw, b.x.raw);
    assert!(d.y.abs().raw < eps, "y off: {} vs {}", a.y.raw, b.y.raw);
    assert!(d.z.abs().raw < eps, "z off: {} vs {}", a.z.raw, b.z.raw);
}

fn assert_pt_close(a: &Point3, b: &Point3, eps: i64) {
    let d = a.sub(b);
    assert!(d.x.abs().raw < eps, "x off: {} vs {}", a.x.raw, b.x.raw);
    assert!(d.y.abs().raw < eps, "y off: {} vs {}", a.y.raw, b.y.raw);
    assert!(d.z.abs().raw < eps, "z off: {} vs {}", a.z.raw, b.z.raw);
}

fn assert_mat_close(a: &Matrix, b: &Matrix, eps: i64) {
    for row in 0..4 {
        for col in 0..4 {
            let d = a.get(row, col).sub(&b.get(row, col)).abs();
            assert!(
                d.raw < eps,
                "[{}][{}] unequal. left is {} and right is {}",
                row,
                col,
                a.get(row, col).raw,
                b.get(row, col).raw
            );
        }
    }
}

#[test]
fn vector3_basic() {
    let v1 = v3(1, 1, 1);
    let v2 = v3(2, 0, 2);

    assert_eq!(v3(2, 2, 2), v1.scalar_mul(fxi(2)));
    assert_eq!(
        Vector3::new(Fx::from_raw(32768), Fx::from_raw(32768), Fx::from_raw(32768)),
        v1.scalar_div(fxi(2))
    );
    assert_eq!(v3(3, 1, 3), v1.add(&v2));
    assert_eq!(v3(-1, 1, -1), v1.sub(&v2));
    assert_eq!(fxi(4), v1.dot(&v2));
    assert_eq!(fxi(3).sqrt(), v1.len());

    let norm = v1.norm();
    let diff = Fx::one().sub(&norm.len());
    assert!(diff.abs().raw < 16);

    let x = v3(1, 0, 0);
    let y = v3(0, 1, 0);
    let z = x.cross(&y);
    assert_eq!(v3(0, 0, 1), z);
}

#[test]
fn vector3_scale() {
    let v1 = v3(1, 1, 1);
    let scale = Matrix::scale(fxi(2), fxi(3), fxi(4));
    let r = v1.mat_mul(&scale);
    assert_eq!(v3(2, 3, 4), r);
}

#[test]
fn vector3_translate() {
    // A translation placement leaves a direction unchanged.
    let v1 = v3(1, 1, 1);
    let translate = Matrix::translate(fxi(2), fxi(3), fxi(4));
    let r = v1.mat_mul(&translate);
    assert_eq!(v3(1, 1, 1), r);
}

#[test]
fn vector3_rotate() {
    let p = v3(1, 1, 1);
    {
        let (c, s) = rot90();
        let rotx = Matrix::rotate_x(c, s);
        assert_vec_close(&v3(1, 1, -1), &p.mat_mul(&rotx), 2);
        assert_vec_close(&v3(1, -1, 1), &rotx.vec3_mul(&p), 2);
    }
    {
        let (c, s) = rot90();
        let roty = Matrix::rotate_y(c, s);
        assert_vec_close(&v3(-1, 1, 1), &p.mat_mul(&roty), 2);
        assert_vec_close(&v3(1, 1, -1), &roty.vec3_mul(&p), 2);
    }
    {
        let (c, s) = rot90();
        let rotz = Matrix::rotate_z(c, s);
        assert_vec_close(&v3(1, -1, 1), &p.mat_mul(&rotz), 2);
        assert_vec_close(&v3(-1, 1, 1), &rotz.vec3_mul(&p), 2);
    }
}

#[test]
fn basic_math() {
    let p1 = p3(1, 1, 1);
    let p2 = p3(0, 0, 0);

    assert_eq!(v3(1, 1, 1), p1.sub(&p2));
    assert_eq!(v3(-1, -1, -1), p2.sub(&p1));

    let v1 = v3(1, 2, -3);
    assert_eq!(p3(2, 3, -2), p1.add(&v1));
    assert_eq!(p3(1, 2, -3), p2.add(&v1));

    assert_eq!(p3(2, 2, 2), p1.scalar_mul(fxi(2)));
}

#[test]
fn point_scale() {
    let p = p3(1, 1, 1);
    let scale = Matrix::scale(fxi(2), fxi(3), fxi(4));
    assert_eq!(p3(2, 3, 4), p.mat_mul(&scale));
    let scale = Matrix::scale(fxi(2), fxi(3), fxi(4));
    assert_eq!(p3(2, 3, 4), scale.pt_mul(&p));
}

#[test]
fn point_translate() {
    let p = p3(1, 1, 1);
    let translate = Matrix::translate(fxi(2), fxi(3), fxi(4));
    assert_eq!(p3(1, 1, 1), p.mat_mul(&translate));
    let translate = Matrix::translate(fxi(2), fxi(3), fxi(4));
    assert_eq!(p3(3, 4, 5), translate.pt_mul(&p));
}

#[test]
fn point_rotate() {
    let p = p3(1, 1, 1);
    {
        let (c, s) = rot90();
        let rotx = Matrix::rotate_x(c, s);
        assert_pt_close(&p3(1, 1, -1), &p.mat_mul(&rotx), 2);
        assert_pt_close(&p3(1, -1, 1), &rotx.pt_mul(&p), 2);
    }
    {
        let (c, s) = rot90();
        let roty = Matrix::rotate_y(c, s);
        assert_pt_close(&p3(-1, 1, 1), &p.mat_mul(&roty), 2);
        assert_pt_close(&p3(1, 1, -1), &roty.pt_mul(&p), 2);
    }
    {
        let (c, s) = rot90();
        let rotz = Matrix::rotate_z(c, s);
        assert_pt_close(&p3(1, -1, 1), &p.mat_mul(&rotz), 2);
        assert_pt_close(&p3(-1, 1, 1), &rotz.pt_mul(&p), 2);
    }
}

#[test]
fn matrix_creation() {
    let m = Matrix::new();
    for row in 0..4 {
        for col in 0..4 {
            assert_eq!(0, m.get(row, col).raw);
        }
    }

    let m = Matrix::identity();
    for row in 0..4 {
        for col in 0..4 {
            let expected = if row == col { 65536 } else { 0 };
            assert_eq!(expected, m.get(row, col).raw);
        }
    }
}

#[test]
fn scalar() {
    let m = Matrix::identity().scalar_mul(fxi(3));
    for row in 0..4 {
        for col in 0..4 {
            let expected = if row == col { fxi(3) } else { Fx::zero() };
            assert_eq!(expected, m.get(row, col));
        }
    }

    let m = Matrix::identity().scalar_div(fxi(2));
    for row in 0..4 {
        for col in 0..4 {
            let expected = if row == col { Fx::from_raw(32768) } else { Fx::zero() };
            assert_eq!(expected, m.get(row, col));
        }
    }
}

#[test]
fn transpose() {
    {
        let scale = Matrix::scale(fxi(2), fxi(3), fxi(4)).transpose();
        assert_eq!(Matrix::scale(fxi(2), fxi(3), fxi(4)), scale);
    }
    {
        let translate = Matrix::translate(fxi(1), fxi(2), fxi(3));
        let transpose = translate.transpose();
        assert_ne!(translate, transpose);
        assert_eq!(translate, transpose.transpose());
    }
    {
        let (c, s) = rot90();
        let (c2, s2) = rot270();
        let rotx = Matrix::rotate_x(c, s).transpose();
        assert_mat_close(&Matrix::rotate_x(c2, s2), &rotx, 2);
        let roty = Matrix::rotate_y(c, s).transpose();
        assert_mat_close(&Matrix::rotate_y(c2, s2), &roty, 2);
        let rotz = Matrix::rotate_z(c, s).transpose();
        assert_mat_close(&Matrix::rotate_z(c2, s2), &rotz, 2);
    }
}

#[test]
fn matrix_mul() {
    {
        let scale = Matrix::scale(fxi(2), fxi(2), fxi(2));
        let product = scale.mat_mul(&Matrix::identity());
        assert_mat_close(&scale, &product, 2);
    }
    {
        let scale = Matrix::scale(fxi(2), fxi(2), fxi(2));
        let scale2 = Matrix::scale(fxi(2), fxi(2), fxi(2));
        let product = scale.mat_mul(&scale2);
        assert_mat_close(&Matrix::scale(fxi(4), fxi(4), fxi(4)), &product, 2);
    }
}

#[test]
fn inverse() {
    {
        let scale = Matrix::scale(fxi(2), fxi(3), fxi(4));
        let inverse = scale.inverse().expect("scale placement must be invertible");
        let product = scale.mat_mul(&inverse);
        assert_mat_close(&Matrix::identity(), &product, 4);
    }
    {
        let mat = Matrix::identity();
        let inverse = mat.inverse().expect("identity must be invertible");
        assert_mat_close(&Matrix::identity(), &inverse, 2);
    }
    {
        let translate = Matrix::translate(fxi(2), fxi(2), fxi(-4));
        let inverse = translate.inverse().expect("translation must be invertible");
        let product = inverse.mat_mul(&translate);
        assert_mat_close(&Matrix::identity(), &product, 2);
    }
    {
        let mut mat = Matrix::identity();
        mat.m13 = fxi(4);
        let inverse = mat.inverse().expect("shear must be invertible");
        let product = inverse.mat_mul(&mat);
        assert_mat_close(&Matrix::identity(), &product, 2);
    }
    {
        // An 82-degree rotation: the direction cosines rounded to the scale.
        let c = Fx::from_raw(9122);
        let s = Fx::from_raw(64898);
        let rotx = Matrix::rotate_x(c, s);
        let inverse = rotx.inverse().expect("rotation must be invertible");
        let product = rotx.mat_mul(&inverse);
        assert_mat_close(&Matrix::identity(), &product, 64);
    }
}

#[test]
fn transformations() {
    let m = Matrix::scale(fxi(2), fxi(3), fxi(4));
    assert_eq!(fxi(2), m.get(0, 0));
    assert_eq!(fxi(3), m.get(1, 1));
    assert_eq!(fxi(4), m.get(2, 2));
    assert_eq!(Fx::one(), m.get(3, 3));
    assert_eq!(Fx::zero(), m.get(0, 3));

    let m = Matrix::translate(fxi(2), fxi(3), fxi(4));
    assert_eq!(fxi(2), m.get(0, 3));
    assert_eq!(fxi(3), m.get(1, 3));
    assert_eq!(fxi(4), m.get(2, 3));
    assert_eq!(Fx::one(), m.get(0, 0));
}

#[test]
fn ray_basic() {
    let ray = Ray::new(&p3(1, 1, 1), &v3(1, 1, 1));

    let neg_ray = ray.neg();
    assert_eq!(p3(1, 1, 1), neg_ray.origin());
    assert_eq!(v3(-1, -1, -1), neg_ray.direction());

    let norm_ray = ray.norm();
    assert_eq!(p3(1, 1, 1), norm_ray.origin());
    assert_vec_close(&v3(1, 1, 1).norm(), &norm_ray.direction(), 2);
}

#[test]
fn ray_times_matrix() {
    let ray = Ray::new(&p3(1, 1, 1), &v3(1, 1, 1));

    // Translate does nothing in this ordering.
    let translate = Matrix::translate(fxi(1), fxi(1), fxi(1));
    let ray_translated = ray.mat_mul(&translate);
    assert_pt_close(&p3(1, 1, 1), &ray_translated.origin(), 2);
    assert_vec_close(&v3(1, 1, 1), &ray_translated.direction(), 2);

    let scale = Matrix::scale(fxi(2), fxi(2), fxi(2));
    let ray_scaled = ray.mat_mul(&scale);
    assert_pt_close(&p3(2, 2, 2), &ray_scaled.origin(), 2);
    assert_vec_close(&v3(2, 2, 2), &ray_scaled.direction(), 2);

    let (c, s) = rot90();
    let rotx = Matrix::rotate_x(c, s);
    let ray_rotx = ray.mat_mul(&rotx);
    assert_pt_close(&p3(1, 1, -1), &ray_rotx.origin(), 2);
    assert_vec_close(&v3(1, 1, -1), &ray_rotx.direction(), 2);

    let roty = Matrix::rotate_y(c, s);
    let ray_roty = ray.mat_mul(&roty);
    assert_pt_close(&p3(-1, 1, 1), &ray_roty.origin(), 2);
    assert_vec_close(&v3(-1, 1, 1), &ray_roty.direction(), 2);

    let rotz = Matrix::rotate_z(c, s);
    let ray_rotz = ray.mat_mul(&rotz);
    assert_pt_close(&p3(1, -1, 1), &ray_rotz.origin(), 2);
    assert_vec_close(&v3(1, -1, 1), &ray_rotz.direction(), 2);
}

#[test]
fn matrix_times_ray() {
    let ray = Ray::new(&p3(1, 1, 1), &v3(1, 1, 1));

    let translate = Matrix::translate(fxi(1), fxi(1), fxi(1));
    let ray_translated = translate.ray_mul(&ray);
    assert_pt_close(&p3(2, 2, 2), &ray_translated.origin(), 2);
    assert_vec_close(&v3(1, 1, 1), &ray_translated.direction(), 2);

    let scale = Matrix::scale(fxi(2), fxi(2), fxi(2));
    let ray_scaled = scale.ray_mul(&ray);
    assert_pt_close(&p3(2, 2, 2), &ray_scaled.origin(), 2);
    assert_vec_close(&v3(2, 2, 2), &ray_scaled.direction(), 2);

    let (c, s) = rot90();
    let rotx = Matrix::rotate_x(c, s);
    let ray_rotx = rotx.ray_mul(&ray);
    assert_pt_close(&p3(1, -1, 1), &ray_rotx.origin(), 2);
    assert_vec_close(&v3(1, -1, 1), &ray_rotx.direction(), 2);

    let roty = Matrix::rotate_y(c, s);
    let ray_roty = roty.ray_mul(&ray);
    assert_pt_close(&p3(1, 1, -1), &ray_roty.origin(), 2);
    assert_vec_close(&v3(1, 1, -1), &ray_roty.direction(), 2);

    let rotz = Matrix::rotate_z(c, s);
    let ray_rotz = rotz.ray_mul(&ray);
    assert_pt_close(&p3(-1, 1, 1), &ray_rotz.origin(), 2);
    assert_vec_close(&v3(-1, 1, 1), &ray_rotz.direction(), 2);
}
