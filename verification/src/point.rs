//! Positions in space over fixed-point scalars.

use vstd::prelude::*;

use crate::fixed::{fadd, fmul, fsub, Fx};
use crate::vector3::Vector3;

verus! {

/// A position in space.
#[derive(Clone, Copy, Debug, PartialEq, Eq, Structural)]
pub struct Point3 {
    pub x: Fx,
    pub y: Fx,
    pub z: Fx,
}

/// Every coordinate scaled by `s`.
pub open spec fn pt_scale(p: Point3, s: Fx) -> Point3 {
    Point3 { x: fmul(p.x, s), y: fmul(p.y, s), z: fmul(p.z, s) }
}

/// The displacement from `q` to `p`.
pub open spec fn pt_sub(p: Point3, q: Point3) -> Vector3 {
    Vector3 { x: fsub(p.x, q.x), y: fsub(p.y, q.y), z: fsub(p.z, q.z) }
}

/// The point reached from `p` by the displacement `v`.
pub open spec fn pt_add(p: Point3, v: Vector3) -> Point3 {
    Point3 { x: fadd(p.x, v.x), y: fadd(p.y, v.y), z: fadd(p.z, v.z) }
}

impl Point3 {
    /// The point with the given coordinates.
    pub fn new(x: Fx, y: Fx, z: Fx) -> (p: Point3)
        ensures
            p == (Point3 { x, y, z }),
    {
        Point3 { x, y, z }
    }

    /// The x coordinate.
    pub fn x(&self) -> (r: Fx)
        ensures
            r == self.x,
    {
        self.x
    }

    /// The y coordinate.
    pub fn y(&self) -> (r: Fx)
        ensures
            r == self.y,
    {
        self.y
    }

    /// The z coordinate.
    pub fn z(&self) -> (r: Fx)
        ensures
            r == self.z,
    {
        self.z
    }

    /// Every coordinate scaled by `a`.
    pub fn scalar_mul(&self, a: Fx) -> (p: Point3)
        ensures
            p == pt_scale(*self, a),
    {
        Point3 { x: self.x.mul(&a), y: self.y.mul(&a), z: self.z.mul(&a) }
    }

    /// The displacement from `q` to `self`.
    pub fn sub(&self, q: &Point3) -> (v: Vector3)
        ensures
            v == pt_sub(*self, *q),
    {
        Vector3 { x: self.x.sub(&q.x), y: self.y.sub(&q.y), z: self.z.sub(&q.z) }
    }

    /// The point reached from `self` by the displacement `v`.
    pub fn add(&self, v: &Vector3) -> (p: Point3)
        ensures
            p == pt_add(*self, *v),
    {
        Point3 { x: self.x.add(&v.x), y: self.y.add(&v.y), z: self.z.add(&v.z) }
    }
}

} // verus!
