//! Three-component vectors over fixed-point scalars.

use vstd::prelude::*;

use crate::fixed::{fadd, fdiv, fmul, fneg, fsqrt, fsub, fx_two, Fx};
use crate::point::Point3;

verus! {

/// A displacement or direction in space.
#[derive(Clone, Copy, Debug, PartialEq, Eq, Structural)]
pub struct Vector3 {
    pub x: Fx,
    pub y: Fx,
    pub z: Fx,
}

/// Channel-wise vector sum.
pub open spec fn vec_add(a: Vector3, b: Vector3) -> Vector3 {
    Vector3 { x: fadd(a.x, b.x), y: fadd(a.y, b.y), z: fadd(a.z, b.z) }
}

/// Channel-wise vector difference.
pub open spec fn vec_sub(a: Vector3, b: Vector3) -> Vector3 {
    Vector3 { x: fsub(a.x, b.x), y: fsub(a.y, b.y), z: fsub(a.z, b.z) }
}

/// Negation of every component.
pub open spec fn vec_neg(a: Vector3) -> Vector3 {
    Vector3 { x: fneg(a.x), y: fneg(a.y), z: fneg(a.z) }
}

/// Every component scaled by `s`.
pub open spec fn vec_scale(a: Vector3, s: Fx) -> Vector3 {
    Vector3 { x: fmul(a.x, s), y: fmul(a.y, s), z: fmul(a.z, s) }
}

/// Every component divided by `d`.
pub open spec fn vec_scalar_div(a: Vector3, d: Fx) -> Vector3 {
    Vector3 { x: fdiv(a.x, d), y: fdiv(a.y, d), z: fdiv(a.z, d) }
}

/// Dot product, summed left to right.
pub open spec fn vec_dot(a: Vector3, b: Vector3) -> Fx {
    fadd(fadd(fmul(a.x, b.x), fmul(a.y, b.y)), fmul(a.z, b.z))
}

/// Squared length.
pub open spec fn vec_len2(a: Vector3) -> Fx {
    vec_dot(a, a)
}

/// Length: the square root of the squared length.
pub open spec fn vec_len(a: Vector3) -> Fx {
    fsqrt(vec_len2(a))
}

/// The vector divided by its own length (zero where the length is zero).
pub open spec fn vec_norm(a: Vector3) -> Vector3 {
    vec_scalar_div(a, vec_len(a))
}

/// Cross product.
pub open spec fn vec_cross(a: Vector3, b: Vector3) -> Vector3 {
    Vector3 {
        x: fsub(fmul(a.y, b.z), fmul(a.z, b.y)),
        y: fsub(fmul(a.z, b.x), fmul(a.x, b.z)),
        z: fsub(fmul(a.x, b.y), fmul(a.y, b.x)),
    }
}

/// Mirror reflection of `a` about the axis `about`:
/// `2 (a . about) about - a`.
pub open spec fn vec_reflect(a: Vector3, about: Vector3) -> Vector3 {
    vec_sub(vec_scale(about, fmul(fx_two(), vec_dot(a, about))), a)
}

impl Vector3 {
    /// The vector with the given components.
    pub fn new(x: Fx, y: Fx, z: Fx) -> (v: Vector3)
        ensures
            v == (Vector3 { x, y, z }),
    {
        Vector3 { x, y, z }
    }

    /// The x component.
    pub fn x(&self) -> (r: Fx)
        ensures
            r == self.x,
    {
        self.x
    }

    /// The y component.
    pub fn y(&self) -> (r: Fx)
        ensures
            r == self.y,
    {
        self.y
    }

    /// The z component.
    pub fn z(&self) -> (r: Fx)
        ensures
            r == self.z,
    {
        self.z
    }

    /// The vector read off a point's coordinates.
    pub fn from_point(p: &Point3) -> (v: Vector3)
        ensures
            v == (Vector3 { x: p.x, y: p.y, z: p.z }),
    {
        Vector3 { x: p.x, y: p.y, z: p.z }
    }

    /// Negation of every component.
    pub fn neg(&self) -> (v: Vector3)
        ensures
            v == vec_neg(*self),
    {
        Vector3 { x: self.x.neg(), y: self.y.neg(), z: self.z.neg() }
    }

    /// Every component scaled by `a`.
    pub fn scalar_mul(&self, a: Fx) -> (v: Vector3)
        ensures
            v == vec_scale(*self, a),
    {
        Vector3 { x: self.x.mul(&a), y: self.y.mul(&a), z: self.z.mul(&a) }
    }

    /// Every component divided by `d`.
    pub fn scalar_div(&self, d: Fx) -> (v: Vector3)
        ensures
            v == vec_scalar_div(*self, d),
    {
        Vector3 { x: self.x.div(&d), y: self.y.div(&d), z: self.z.div(&d) }
    }

    /// Vector sum.
    pub fn add(&self, v: &Vector3) -> (r: Vector3)
        ensures
            r == vec_add(*self, *v),
    {
        Vector3 { x: self.x.add(&v.x), y: self.y.add(&v.y), z: self.z.add(&v.z) }
    }

    /// Vector difference.
    pub fn sub(&self, v: &Vector3) -> (r: Vector3)
        ensures
            r == vec_sub(*self, *v),
    {
        Vector3 { x: self.x.sub(&v.x), y: self.y.sub(&v.y), z: self.z.sub(&v.z) }
    }

    /// Squared length.
    pub fn len2(&self) -> (r: Fx)
        ensures
            r == vec_len2(*self),
    {
        self.dot(self)
    }

    /// Length.
    pub fn len(&self) -> (r: Fx)
        ensures
            r == vec_len(*self),
    {
        let len2 = self.len2();
        len2.sqrt()
    }

    /// Dot product.
    pub fn dot(&self, v: &Vector3) -> (r: Fx)
        ensures
            r == vec_dot(*self, *v),
    {
        self.x.mul(&v.x).add(&self.y.mul(&v.y)).add(&self.z.mul(&v.z))
    }

    /// The vector scaled to (approximately) unit length; the zero vector
    /// stays zero.
    pub fn norm(&self) -> (r: Vector3)
        ensures
            r == vec_norm(*self),
    {
        let len = self.len();
        self.scalar_div(len)
    }

    /// Cross product.
    pub fn cross(&self, v: &Vector3) -> (r: Vector3)
        ensures
            r == vec_cross(*self, *v),
    {
        Vector3 {
            x: self.y.mul(&v.z).sub(&self.z.mul(&v.y)),
            y: self.z.mul(&v.x).sub(&self.x.mul(&v.z)),
            z: self.x.mul(&v.y).sub(&self.y.mul(&v.x)),
        }
    }

    /// Mirror reflection of `self` about the axis `about`.
    pub fn reflect(&self, about: &Vector3) -> (r: Vector3)
        ensures
            r == vec_reflect(*self, *about),
    {
        let two = Fx::from_raw(131072);
        about.scalar_mul(two.mul(&self.dot(about))).sub(self)
    }
}

} // verus!
