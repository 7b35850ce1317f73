//! Row-major 4x4 placement matrices over fixed-point scalars.
//!
//! The translation component sits in the last column. The inverse is computed
//! by the adjugate formula, so a placement is invertible exactly when its
//! fixed-point determinant is nonzero; a zero determinant is the one
//! unrecoverable geometric degeneracy of the renderer.

use vstd::prelude::*;

use crate::fixed::{fadd, fdiv, fmul, fneg, fsub, Fx};
use crate::point::Point3;
use crate::ray::Ray;
use crate::vector3::Vector3;

verus! {

/// A row-major 4x4 matrix; field `mRC` is the entry of row `R`, column `C`.
#[derive(Clone, Copy, Debug, PartialEq, Eq, Structural)]
pub struct Matrix {
    pub m00: Fx,
    pub m01: Fx,
    pub m02: Fx,
    pub m03: Fx,
    pub m10: Fx,
    pub m11: Fx,
    pub m12: Fx,
    pub m13: Fx,
    pub m20: Fx,
    pub m21: Fx,
    pub m22: Fx,
    pub m23: Fx,
    pub m30: Fx,
    pub m31: Fx,
    pub m32: Fx,
    pub m33: Fx,
}

/// The entry of `m` at the given row and column.
pub open spec fn mat_entry(m: Matrix, row: int, col: int) -> Fx {
    if row == 0 {
        if col == 0 { m.m00 } else if col == 1 { m.m01 } else if col == 2 { m.m02 } else { m.m03 }
    } else if row == 1 {
        if col == 0 { m.m10 } else if col == 1 { m.m11 } else if col == 2 { m.m12 } else { m.m13 }
    } else if row == 2 {
        if col == 0 { m.m20 } else if col == 1 { m.m21 } else if col == 2 { m.m22 } else { m.m23 }
    } else {
        if col == 0 { m.m30 } else if col == 1 { m.m31 } else if col == 2 { m.m32 } else { m.m33 }
    }
}

/// Matrix product `a * b`, each entry summed left to right.
pub open spec fn mat_mul_spec(a: Matrix, b: Matrix) -> Matrix {
    Matrix {
        m00: fadd(fadd(fadd(fmul(a.m00, b.m00), fmul(a.m01, b.m10)), fmul(a.m02, b.m20)), fmul(a.m03, b.m30)),
        m01: fadd(fadd(fadd(fmul(a.m00, b.m01), fmul(a.m01, b.m11)), fmul(a.m02, b.m21)), fmul(a.m03, b.m31)),
        m02: fadd(fadd(fadd(fmul(a.m00, b.m02), fmul(a.m01, b.m12)), fmul(a.m02, b.m22)), fmul(a.m03, b.m32)),
        m03: fadd(fadd(fadd(fmul(a.m00, b.m03), fmul(a.m01, b.m13)), fmul(a.m02, b.m23)), fmul(a.m03, b.m33)),
        m10: fadd(fadd(fadd(fmul(a.m10, b.m00), fmul(a.m11, b.m10)), fmul(a.m12, b.m20)), fmul(a.m13, b.m30)),
        m11: fadd(fadd(fadd(fmul(a.m10, b.m01), fmul(a.m11, b.m11)), fmul(a.m12, b.m21)), fmul(a.m13, b.m31)),
        m12: fadd(fadd(fadd(fmul(a.m10, b.m02), fmul(a.m11, b.m12)), fmul(a.m12, b.m22)), fmul(a.m13, b.m32)),
        m13: fadd(fadd(fadd(fmul(a.m10, b.m03), fmul(a.m11, b.m13)), fmul(a.m12, b.m23)), fmul(a.m13, b.m33)),
        m20: fadd(fadd(fadd(fmul(a.m20, b.m00), fmul(a.m21, b.m10)), fmul(a.m22, b.m20)), fmul(a.m23, b.m30)),
        m21: fadd(fadd(fadd(fmul(a.m20, b.m01), fmul(a.m21, b.m11)), fmul(a.m22, b.m21)), fmul(a.m23, b.m31)),
        m22: fadd(fadd(fadd(fmul(a.m20, b.m02), fmul(a.m21, b.m12)), fmul(a.m22, b.m22)), fmul(a.m23, b.m32)),
        m23: fadd(fadd(fadd(fmul(a.m20, b.m03), fmul(a.m21, b.m13)), fmul(a.m22, b.m23)), fmul(a.m23, b.m33)),
        m30: fadd(fadd(fadd(fmul(a.m30, b.m00), fmul(a.m31, b.m10)), fmul(a.m32, b.m20)), fmul(a.m33, b.m30)),
        m31: fadd(fadd(fadd(fmul(a.m30, b.m01), fmul(a.m31, b.m11)), fmul(a.m32, b.m21)), fmul(a.m33, b.m31)),
        m32: fadd(fadd(fadd(fmul(a.m30, b.m02), fmul(a.m31, b.m12)), fmul(a.m32, b.m22)), fmul(a.m33, b.m32)),
        m33: fadd(fadd(fadd(fmul(a.m30, b.m03), fmul(a.m31, b.m13)), fmul(a.m32, b.m23)), fmul(a.m33, b.m33)),
    }
}

/// The transpose of `m`.
pub open spec fn mat_transpose(m: Matrix) -> Matrix {
    Matrix {
        m00: m.m00,
        m01: m.m10,
        m02: m.m20,
        m03: m.m30,
        m10: m.m01,
        m11: m.m11,
        m12: m.m21,
        m13: m.m31,
        m20: m.m02,
        m21: m.m12,
        m22: m.m22,
        m23: m.m32,
        m30: m.m03,
        m31: m.m13,
        m32: m.m23,
        m33: m.m33,
    }
}

/// Every entry of `m` scaled by `a`.
pub open spec fn mat_scalar_mul(m: Matrix, a: Fx) -> Matrix {
    Matrix {
        m00: fmul(a, m.m00),
        m01: fmul(a, m.m01),
        m02: fmul(a, m.m02),
        m03: fmul(a, m.m03),
        m10: fmul(a, m.m10),
        m11: fmul(a, m.m11),
        m12: fmul(a, m.m12),
        m13: fmul(a, m.m13),
        m20: fmul(a, m.m20),
        m21: fmul(a, m.m21),
        m22: fmul(a, m.m22),
        m23: fmul(a, m.m23),
        m30: fmul(a, m.m30),
        m31: fmul(a, m.m31),
        m32: fmul(a, m.m32),
        m33: fmul(a, m.m33),
    }
}

/// Every entry of `m` divided by `a`.
pub open spec fn mat_scalar_div(m: Matrix, a: Fx) -> Matrix {
    Matrix {
        m00: fdiv(m.m00, a),
        m01: fdiv(m.m01, a),
        m02: fdiv(m.m02, a),
        m03: fdiv(m.m03, a),
        m10: fdiv(m.m10, a),
        m11: fdiv(m.m11, a),
        m12: fdiv(m.m12, a),
        m13: fdiv(m.m13, a),
        m20: fdiv(m.m20, a),
        m21: fdiv(m.m21, a),
        m22: fdiv(m.m22, a),
        m23: fdiv(m.m23, a),
        m30: fdiv(m.m30, a),
        m31: fdiv(m.m31, a),
        m32: fdiv(m.m32, a),
        m33: fdiv(m.m33, a),
    }
}

/// A direction transformed by the upper-left 3x3 block of `m` (rows dotted
/// with the vector; translation does not apply to directions).
pub open spec fn mat_vec3_mul(m: Matrix, v: Vector3) -> Vector3 {
    Vector3 {
        x: fadd(fadd(fmul(v.x, m.m00), fmul(v.y, m.m01)), fmul(v.z, m.m02)),
        y: fadd(fadd(fmul(v.x, m.m10), fmul(v.y, m.m11)), fmul(v.z, m.m12)),
        z: fadd(fadd(fmul(v.x, m.m20), fmul(v.y, m.m21)), fmul(v.z, m.m22)),
    }
}

/// A point transformed by `m`: rotation/scale plus the translation column.
pub open spec fn mat_pt_mul(m: Matrix, p: Point3) -> Point3 {
    Point3 {
        x: fadd(fadd(fadd(fmul(p.x, m.m00), fmul(p.y, m.m01)), fmul(p.z, m.m02)), m.m03),
        y: fadd(fadd(fadd(fmul(p.x, m.m10), fmul(p.y, m.m11)), fmul(p.z, m.m12)), m.m13),
        z: fadd(fadd(fadd(fmul(p.x, m.m20), fmul(p.y, m.m21)), fmul(p.z, m.m22)), m.m23),
    }
}

/// A direction transformed by the columns of `m` (the transposed action).
pub open spec fn vec3_mat_mul(v: Vector3, m: Matrix) -> Vector3 {
    Vector3 {
        x: fadd(fadd(fmul(v.x, m.m00), fmul(v.y, m.m10)), fmul(v.z, m.m20)),
        y: fadd(fadd(fmul(v.x, m.m01), fmul(v.y, m.m11)), fmul(v.z, m.m21)),
        z: fadd(fadd(fmul(v.x, m.m02), fmul(v.y, m.m12)), fmul(v.z, m.m22)),
    }
}

/// A point transformed by the columns of `m`, with the translation row.
pub open spec fn pt_mat_mul(p: Point3, m: Matrix) -> Point3 {
    Point3 {
        x: fadd(fadd(fadd(fmul(p.x, m.m00), fmul(p.y, m.m10)), fmul(p.z, m.m20)), m.m30),
        y: fadd(fadd(fadd(fmul(p.x, m.m01), fmul(p.y, m.m11)), fmul(p.z, m.m21)), m.m31),
        z: fadd(fadd(fadd(fmul(p.x, m.m02), fmul(p.y, m.m12)), fmul(p.z, m.m22)), m.m32),
    }
}

/// A ray transformed by `m`: the origin as a point, the direction as a
/// direction.
pub open spec fn mat_ray_mul(m: Matrix, r: Ray) -> Ray {
    Ray { origin: mat_pt_mul(m, r.origin), direction: mat_vec3_mul(m, r.direction) }
}

/// The zero matrix.
pub open spec fn mat_zero() -> Matrix {
    Matrix {
        m00: Fx { raw: 0 }, m01: Fx { raw: 0 }, m02: Fx { raw: 0 }, m03: Fx { raw: 0 },
        m10: Fx { raw: 0 }, m11: Fx { raw: 0 }, m12: Fx { raw: 0 }, m13: Fx { raw: 0 },
        m20: Fx { raw: 0 }, m21: Fx { raw: 0 }, m22: Fx { raw: 0 }, m23: Fx { raw: 0 },
        m30: Fx { raw: 0 }, m31: Fx { raw: 0 }, m32: Fx { raw: 0 }, m33: Fx { raw: 0 },
    }
}

/// The identity matrix.
pub open spec fn mat_identity() -> Matrix {
    Matrix {
        m00: Fx { raw: 65536 }, m01: Fx { raw: 0 }, m02: Fx { raw: 0 }, m03: Fx { raw: 0 },
        m10: Fx { raw: 0 }, m11: Fx { raw: 65536 }, m12: Fx { raw: 0 }, m13: Fx { raw: 0 },
        m20: Fx { raw: 0 }, m21: Fx { raw: 0 }, m22: Fx { raw: 65536 }, m23: Fx { raw: 0 },
        m30: Fx { raw: 0 }, m31: Fx { raw: 0 }, m32: Fx { raw: 0 }, m33: Fx { raw: 65536 },
    }
}

/// Determinant of a 3x3 block, rows given left to right, top to bottom.
pub open spec fn det3s(a: Fx, b: Fx, c: Fx, d: Fx, e: Fx, f: Fx, g: Fx, h: Fx, i: Fx) -> Fx {
    fadd(
        fsub(
            fmul(a, fsub(fmul(e, i), fmul(f, h))),
            fmul(b, fsub(fmul(d, i), fmul(f, g))),
        ),
        fmul(c, fsub(fmul(d, h), fmul(e, g))),
    )
}

/// Determinant of a placement matrix, expanded along its first row.
pub open spec fn mat_det(m: Matrix) -> Fx {
    fsub(
        fadd(
            fsub(fmul(m.m00, det3s(m.m11, m.m12, m.m13, m.m21, m.m22, m.m23, m.m31, m.m32, m.m33)), fmul(m.m01, det3s(m.m10, m.m12, m.m13, m.m20, m.m22, m.m23, m.m30, m.m32, m.m33))),
            fmul(m.m02, det3s(m.m10, m.m11, m.m13, m.m20, m.m21, m.m23, m.m30, m.m31, m.m33)),
        ),
        fmul(m.m03, det3s(m.m10, m.m11, m.m12, m.m20, m.m21, m.m22, m.m30, m.m31, m.m32)),
    )
}

/// The adjugate-over-determinant inverse; `None` exactly when the
/// fixed-point determinant is zero.
pub open spec fn mat_inverse(m: Matrix) -> Option<Matrix> {
    let det = mat_det(m);
    if det.raw == 0 {
        None
    } else {
        Some(
            Matrix {
                m00: fdiv(det3s(m.m11, m.m12, m.m13, m.m21, m.m22, m.m23, m.m31, m.m32, m.m33), det),
                m01: fdiv(fneg(det3s(m.m01, m.m02, m.m03, m.m21, m.m22, m.m23, m.m31, m.m32, m.m33)), det),
                m02: fdiv(det3s(m.m01, m.m02, m.m03, m.m11, m.m12, m.m13, m.m31, m.m32, m.m33), det),
                m03: fdiv(fneg(det3s(m.m01, m.m02, m.m03, m.m11, m.m12, m.m13, m.m21, m.m22, m.m23)), det),
                m10: fdiv(fneg(det3s(m.m10, m.m12, m.m13, m.m20, m.m22, m.m23, m.m30, m.m32, m.m33)), det),
                m11: fdiv(det3s(m.m00, m.m02, m.m03, m.m20, m.m22, m.m23, m.m30, m.m32, m.m33), det),
                m12: fdiv(fneg(det3s(m.m00, m.m02, m.m03, m.m10, m.m12, m.m13, m.m30, m.m32, m.m33)), det),
                m13: fdiv(det3s(m.m00, m.m02, m.m03, m.m10, m.m12, m.m13, m.m20, m.m22, m.m23), det),
                m20: fdiv(det3s(m.m10, m.m11, m.m13, m.m20, m.m21, m.m23, m.m30, m.m31, m.m33), det),
                m21: fdiv(fneg(det3s(m.m00, m.m01, m.m03, m.m20, m.m21, m.m23, m.m30, m.m31, m.m33)), det),
                m22: fdiv(det3s(m.m00, m.m01, m.m03, m.m10, m.m11, m.m13, m.m30, m.m31, m.m33), det),
                m23: fdiv(fneg(det3s(m.m00, m.m01, m.m03, m.m10, m.m11, m.m13, m.m20, m.m21, m.m23)), det),
                m30: fdiv(fneg(det3s(m.m10, m.m11, m.m12, m.m20, m.m21, m.m22, m.m30, m.m31, m.m32)), det),
                m31: fdiv(det3s(m.m00, m.m01, m.m02, m.m20, m.m21, m.m22, m.m30, m.m31, m.m32), det),
                m32: fdiv(fneg(det3s(m.m00, m.m01, m.m02, m.m10, m.m11, m.m12, m.m30, m.m31, m.m32)), det),
                m33: fdiv(det3s(m.m00, m.m01, m.m02, m.m10, m.m11, m.m12, m.m20, m.m21, m.m22), det),
            },
        )
    }
}

impl Matrix {
    /// The zero matrix.
    pub fn new() -> (m: Matrix)
        ensures
            m == mat_zero(),
    {
        let z = Fx::zero();
        Matrix {
            m00: z, m01: z, m02: z, m03: z,
            m10: z, m11: z, m12: z, m13: z,
            m20: z, m21: z, m22: z, m23: z,
            m30: z, m31: z, m32: z, m33: z,
        }
    }

    /// The identity matrix.
    pub fn identity() -> (m: Matrix)
        ensures
            m == mat_identity(),
    {
        let z = Fx::zero();
        let o = Fx::one();
        Matrix {
            m00: o, m01: z, m02: z, m03: z,
            m10: z, m11: o, m12: z, m13: z,
            m20: z, m21: z, m22: o, m23: z,
            m30: z, m31: z, m32: z, m33: o,
        }
    }

    /// The entry at the given row and column.
    pub fn get(&self, row: usize, col: usize) -> (r: Fx)
        requires
            row < 4,
            col < 4,
        ensures
            r == mat_entry(*self, row as int, col as int),
    {
        if row == 0 {
            if col == 0 { self.m00 } else if col == 1 { self.m01 } else if col == 2 { self.m02 } else { self.m03 }
        } else if row == 1 {
            if col == 0 { self.m10 } else if col == 1 { self.m11 } else if col == 2 { self.m12 } else { self.m13 }
        } else if row == 2 {
            if col == 0 { self.m20 } else if col == 1 { self.m21 } else if col == 2 { self.m22 } else { self.m23 }
        } else {
            if col == 0 { self.m30 } else if col == 1 { self.m31 } else if col == 2 { self.m32 } else { self.m33 }
        }
    }

    /// Every entry scaled by `a`.
    pub fn scalar_mul(&self, a: Fx) -> (m: Matrix)
        ensures
            m == mat_scalar_mul(*self, a),
    {
        Matrix {
            m00: a.mul(&self.m00),
            m01: a.mul(&self.m01),
            m02: a.mul(&self.m02),
            m03: a.mul(&self.m03),
            m10: a.mul(&self.m10),
            m11: a.mul(&self.m11),
            m12: a.mul(&self.m12),
            m13: a.mul(&self.m13),
            m20: a.mul(&self.m20),
            m21: a.mul(&self.m21),
            m22: a.mul(&self.m22),
            m23: a.mul(&self.m23),
            m30: a.mul(&self.m30),
            m31: a.mul(&self.m31),
            m32: a.mul(&self.m32),
            m33: a.mul(&self.m33),
        }
    }

    /// Every entry divided by `a`.
    pub fn scalar_div(&self, a: Fx) -> (m: Matrix)
        ensures
            m == mat_scalar_div(*self, a),
    {
        Matrix {
            m00: self.m00.div(&a),
            m01: self.m01.div(&a),
            m02: self.m02.div(&a),
            m03: self.m03.div(&a),
            m10: self.m10.div(&a),
            m11: self.m11.div(&a),
            m12: self.m12.div(&a),
            m13: self.m13.div(&a),
            m20: self.m20.div(&a),
            m21: self.m21.div(&a),
            m22: self.m22.div(&a),
            m23: self.m23.div(&a),
            m30: self.m30.div(&a),
            m31: self.m31.div(&a),
            m32: self.m32.div(&a),
            m33: self.m33.div(&a),
        }
    }

    /// Matrix product `self * a`.
    pub fn mat_mul(&self, a: &Matrix) -> (m: Matrix)
        ensures
            m == mat_mul_spec(*self, *a),
    {
        Matrix {
            m00: self.m00.mul(&a.m00).add(&self.m01.mul(&a.m10)).add(&self.m02.mul(&a.m20)).add(&self.m03.mul(&a.m30)),
            m01: self.m00.mul(&a.m01).add(&self.m01.mul(&a.m11)).add(&self.m02.mul(&a.m21)).add(&self.m03.mul(&a.m31)),
            m02: self.m00.mul(&a.m02).add(&self.m01.mul(&a.m12)).add(&self.m02.mul(&a.m22)).add(&self.m03.mul(&a.m32)),
            m03: self.m00.mul(&a.m03).add(&self.m01.mul(&a.m13)).add(&self.m02.mul(&a.m23)).add(&self.m03.mul(&a.m33)),
            m10: self.m10.mul(&a.m00).add(&self.m11.mul(&a.m10)).add(&self.m12.mul(&a.m20)).add(&self.m13.mul(&a.m30)),
            m11: self.m10.mul(&a.m01).add(&self.m11.mul(&a.m11)).add(&self.m12.mul(&a.m21)).add(&self.m13.mul(&a.m31)),
            m12: self.m10.mul(&a.m02).add(&self.m11.mul(&a.m12)).add(&self.m12.mul(&a.m22)).add(&self.m13.mul(&a.m32)),
            m13: self.m10.mul(&a.m03).add(&self.m11.mul(&a.m13)).add(&self.m12.mul(&a.m23)).add(&self.m13.mul(&a.m33)),
            m20: self.m20.mul(&a.m00).add(&self.m21.mul(&a.m10)).add(&self.m22.mul(&a.m20)).add(&self.m23.mul(&a.m30)),
            m21: self.m20.mul(&a.m01).add(&self.m21.mul(&a.m11)).add(&self.m22.mul(&a.m21)).add(&self.m23.mul(&a.m31)),
            m22: self.m20.mul(&a.m02).add(&self.m21.mul(&a.m12)).add(&self.m22.mul(&a.m22)).add(&self.m23.mul(&a.m32)),
            m23: self.m20.mul(&a.m03).add(&self.m21.mul(&a.m13)).add(&self.m22.mul(&a.m23)).add(&self.m23.mul(&a.m33)),
            m30: self.m30.mul(&a.m00).add(&self.m31.mul(&a.m10)).add(&self.m32.mul(&a.m20)).add(&self.m33.mul(&a.m30)),
            m31: self.m30.mul(&a.m01).add(&self.m31.mul(&a.m11)).add(&self.m32.mul(&a.m21)).add(&self.m33.mul(&a.m31)),
            m32: self.m30.mul(&a.m02).add(&self.m31.mul(&a.m12)).add(&self.m32.mul(&a.m22)).add(&self.m33.mul(&a.m32)),
            m33: self.m30.mul(&a.m03).add(&self.m31.mul(&a.m13)).add(&self.m32.mul(&a.m23)).add(&self.m33.mul(&a.m33)),
        }
    }

    /// The transpose.
    pub fn transpose(&self) -> (m: Matrix)
        ensures
            m == mat_transpose(*self),
    {
        Matrix {
            m00: self.m00,
            m01: self.m10,
            m02: self.m20,
            m03: self.m30,
            m10: self.m01,
            m11: self.m11,
            m12: self.m21,
            m13: self.m31,
            m20: self.m02,
            m21: self.m12,
            m22: self.m22,
            m23: self.m32,
            m30: self.m03,
            m31: self.m13,
            m32: self.m23,
            m33: self.m33,
        }
    }

    /// The determinant.
    pub fn det(&self) -> (r: Fx)
        ensures
            r == mat_det(*self),
    {
        self.m00.mul(
            &det3(self.m11, self.m12, self.m13, self.m21, self.m22, self.m23, self.m31, self.m32, self.m33),
        ).sub(
            &self.m01.mul(
                &det3(self.m10, self.m12, self.m13, self.m20, self.m22, self.m23, self.m30, self.m32, self.m33),
            ),
        ).add(
            &self.m02.mul(
                &det3(self.m10, self.m11, self.m13, self.m20, self.m21, self.m23, self.m30, self.m31, self.m33),
            ),
        ).sub(
            &self.m03.mul(
                &det3(self.m10, self.m11, self.m12, self.m20, self.m21, self.m22, self.m30, self.m31, self.m32),
            ),
        )
    }

    /// The inverse placement, by the adjugate formula; `None` exactly when
    /// the fixed-point determinant is zero.
    pub fn inverse(&self) -> (r: Option<Matrix>)
        ensures
            r == mat_inverse(*self),
            r is None <==> mat_det(*self).raw == 0,
    {
        let det = self.m00.mul(&det3(self.m11, self.m12, self.m13, self.m21, self.m22, self.m23, self.m31, self.m32, self.m33)).sub(&self.m01.mul(&det3(self.m10, self.m12, self.m13, self.m20, self.m22, self.m23, self.m30, self.m32, self.m33))).add(&self.m02.mul(&det3(self.m10, self.m11, self.m13, self.m20, self.m21, self.m23, self.m30, self.m31, self.m33))).sub(&self.m03.mul(&det3(self.m10, self.m11, self.m12, self.m20, self.m21, self.m22, self.m30, self.m31, self.m32)));
        if det.raw == 0 {
            None
        } else {
            Some(
                Matrix {
                    m00: det3(self.m11, self.m12, self.m13, self.m21, self.m22, self.m23, self.m31, self.m32, self.m33).div(&det),
                    m01: det3(self.m01, self.m02, self.m03, self.m21, self.m22, self.m23, self.m31, self.m32, self.m33).neg().div(&det),
                    m02: det3(self.m01, self.m02, self.m03, self.m11, self.m12, self.m13, self.m31, self.m32, self.m33).div(&det),
                    m03: det3(self.m01, self.m02, self.m03, self.m11, self.m12, self.m13, self.m21, self.m22, self.m23).neg().div(&det),
                    m10: det3(self.m10, self.m12, self.m13, self.m20, self.m22, self.m23, self.m30, self.m32, self.m33).neg().div(&det),
                    m11: det3(self.m00, self.m02, self.m03, self.m20, self.m22, self.m23, self.m30, self.m32, self.m33).div(&det),
                    m12: det3(self.m00, self.m02, self.m03, self.m10, self.m12, self.m13, self.m30, self.m32, self.m33).neg().div(&det),
                    m13: det3(self.m00, self.m02, self.m03, self.m10, self.m12, self.m13, self.m20, self.m22, self.m23).div(&det),
                    m20: det3(self.m10, self.m11, self.m13, self.m20, self.m21, self.m23, self.m30, self.m31, self.m33).div(&det),
                    m21: det3(self.m00, self.m01, self.m03, self.m20, self.m21, self.m23, self.m30, self.m31, self.m33).neg().div(&det),
                    m22: det3(self.m00, self.m01, self.m03, self.m10, self.m11, self.m13, self.m30, self.m31, self.m33).div(&det),
                    m23: det3(self.m00, self.m01, self.m03, self.m10, self.m11, self.m13, self.m20, self.m21, self.m23).neg().div(&det),
                    m30: det3(self.m10, self.m11, self.m12, self.m20, self.m21, self.m22, self.m30, self.m31, self.m32).neg().div(&det),
                    m31: det3(self.m00, self.m01, self.m02, self.m20, self.m21, self.m22, self.m30, self.m31, self.m32).div(&det),
                    m32: det3(self.m00, self.m01, self.m02, self.m10, self.m11, self.m12, self.m30, self.m31, self.m32).neg().div(&det),
                    m33: det3(self.m00, self.m01, self.m02, self.m10, self.m11, self.m12, self.m20, self.m21, self.m22).div(&det),
                },
            )
        }
    }

    /// Replace this placement with its inverse in place. Returns whether the
    /// placement was invertible; a singular placement is left unchanged.
    pub fn invert(&mut self) -> (ok: bool)
        ensures
            ok <==> mat_det(*old(self)).raw != 0,
            match mat_inverse(*old(self)) {
                Some(inv) => *final(self) == inv,
                None => *final(self) == *old(self),
            },
    {
        let inv = self.inverse();
        match inv {
            Some(m) => {
                *self = m;
                true
            },
            None => false,
        }
    }

    /// The scaling placement with the given axis factors.
    pub fn scale(x: Fx, y: Fx, z: Fx) -> (m: Matrix)
        ensures
            m == mat_scale_spec(x, y, z),
    {
        let zr = Fx::zero();
        let o = Fx::one();
        Matrix {
            m00: x, m01: zr, m02: zr, m03: zr,
            m10: zr, m11: y, m12: zr, m13: zr,
            m20: zr, m21: zr, m22: z, m23: zr,
            m30: zr, m31: zr, m32: zr, m33: o,
        }
    }

    /// The translation placement by the given offsets.
    pub fn translate(x: Fx, y: Fx, z: Fx) -> (m: Matrix)
        ensures
            m == mat_translate_spec(x, y, z),
    {
        let zr = Fx::zero();
        let o = Fx::one();
        Matrix {
            m00: o, m01: zr, m02: zr, m03: x,
            m10: zr, m11: o, m12: zr, m13: y,
            m20: zr, m21: zr, m22: o, m23: z,
            m30: zr, m31: zr, m32: zr, m33: o,
        }
    }

    /// Rotation about the x axis, given the cosine and sine of the angle.
    /// (The fixed-point core takes direction cosines from the caller rather
    /// than an angle.)
    pub fn rotate_x(c: Fx, s: Fx) -> (m: Matrix)
        ensures
            m == mat_rotate_x_spec(c, s),
    {
        let zr = Fx::zero();
        let o = Fx::one();
        Matrix {
            m00: o, m01: zr, m02: zr, m03: zr,
            m10: zr, m11: c, m12: s.neg(), m13: zr,
            m20: zr, m21: s, m22: c, m23: zr,
            m30: zr, m31: zr, m32: zr, m33: o,
        }
    }

    /// Rotation about the y axis, given the cosine and sine of the angle.
    pub fn rotate_y(c: Fx, s: Fx) -> (m: Matrix)
        ensures
            m == mat_rotate_y_spec(c, s),
    {
        let zr = Fx::zero();
        let o = Fx::one();
        Matrix {
            m00: c, m01: zr, m02: s, m03: zr,
            m10: zr, m11: o, m12: zr, m13: zr,
            m20: s.neg(), m21: zr, m22: c, m23: zr,
            m30: zr, m31: zr, m32: zr, m33: o,
        }
    }

    /// Rotation about the z axis, given the cosine and sine of the angle.
    pub fn rotate_z(c: Fx, s: Fx) -> (m: Matrix)
        ensures
            m == mat_rotate_z_spec(c, s),
    {
        let zr = Fx::zero();
        let o = Fx::one();
        Matrix {
            m00: c, m01: s.neg(), m02: zr, m03: zr,
            m10: s, m11: c, m12: zr, m13: zr,
            m20: zr, m21: zr, m22: o, m23: zr,
            m30: zr, m31: zr, m32: zr, m33: o,
        }
    }

    /// A direction transformed by the upper-left 3x3 block.
    pub fn vec3_mul(&self, v: &Vector3) -> (r: Vector3)
        ensures
            r == mat_vec3_mul(*self, *v),
    {
        Vector3 {
            x: v.x.mul(&self.m00).add(&v.y.mul(&self.m01)).add(&v.z.mul(&self.m02)),
            y: v.x.mul(&self.m10).add(&v.y.mul(&self.m11)).add(&v.z.mul(&self.m12)),
            z: v.x.mul(&self.m20).add(&v.y.mul(&self.m21)).add(&v.z.mul(&self.m22)),
        }
    }

    /// A point transformed by this placement.
    pub fn pt_mul(&self, p: &Point3) -> (r: Point3)
        ensures
            r == mat_pt_mul(*self, *p),
    {
        Point3 {
            x: p.x.mul(&self.m00).add(&p.y.mul(&self.m01)).add(&p.z.mul(&self.m02)).add(&self.m03),
            y: p.x.mul(&self.m10).add(&p.y.mul(&self.m11)).add(&p.z.mul(&self.m12)).add(&self.m13),
            z: p.x.mul(&self.m20).add(&p.y.mul(&self.m21)).add(&p.z.mul(&self.m22)).add(&self.m23),
        }
    }

    /// A ray transformed by this placement.
    pub fn ray_mul(&self, r: &Ray) -> (t: Ray)
        ensures
            t == mat_ray_mul(*self, *r),
    {
        Ray { origin: self.pt_mul(&r.origin), direction: self.vec3_mul(&r.direction) }
    }
}

/// The scaling placement with the given axis factors.
pub open spec fn mat_scale_spec(x: Fx, y: Fx, z: Fx) -> Matrix {
    Matrix {
        m00: x, m01: Fx { raw: 0 }, m02: Fx { raw: 0 }, m03: Fx { raw: 0 },
        m10: Fx { raw: 0 }, m11: y, m12: Fx { raw: 0 }, m13: Fx { raw: 0 },
        m20: Fx { raw: 0 }, m21: Fx { raw: 0 }, m22: z, m23: Fx { raw: 0 },
        m30: Fx { raw: 0 }, m31: Fx { raw: 0 }, m32: Fx { raw: 0 }, m33: Fx { raw: 65536 },
    }
}

/// The translation placement by the given offsets.
pub open spec fn mat_translate_spec(x: Fx, y: Fx, z: Fx) -> Matrix {
    Matrix {
        m00: Fx { raw: 65536 }, m01: Fx { raw: 0 }, m02: Fx { raw: 0 }, m03: x,
        m10: Fx { raw: 0 }, m11: Fx { raw: 65536 }, m12: Fx { raw: 0 }, m13: y,
        m20: Fx { raw: 0 }, m21: Fx { raw: 0 }, m22: Fx { raw: 65536 }, m23: z,
        m30: Fx { raw: 0 }, m31: Fx { raw: 0 }, m32: Fx { raw: 0 }, m33: Fx { raw: 65536 },
    }
}

/// Rotation about the x axis from the cosine and sine of the angle.
pub open spec fn mat_rotate_x_spec(c: Fx, s: Fx) -> Matrix {
    Matrix {
        m00: Fx { raw: 65536 }, m01: Fx { raw: 0 }, m02: Fx { raw: 0 }, m03: Fx { raw: 0 },
        m10: Fx { raw: 0 }, m11: c, m12: fneg(s), m13: Fx { raw: 0 },
        m20: Fx { raw: 0 }, m21: s, m22: c, m23: Fx { raw: 0 },
        m30: Fx { raw: 0 }, m31: Fx { raw: 0 }, m32: Fx { raw: 0 }, m33: Fx { raw: 65536 },
    }
}

/// Rotation about the y axis from the cosine and sine of the angle.
pub open spec fn mat_rotate_y_spec(c: Fx, s: Fx) -> Matrix {
    Matrix {
        m00: c, m01: Fx { raw: 0 }, m02: s, m03: Fx { raw: 0 },
        m10: Fx { raw: 0 }, m11: Fx { raw: 65536 }, m12: Fx { raw: 0 }, m13: Fx { raw: 0 },
        m20: fneg(s), m21: Fx { raw: 0 }, m22: c, m23: Fx { raw: 0 },
        m30: Fx { raw: 0 }, m31: Fx { raw: 0 }, m32: Fx { raw: 0 }, m33: Fx { raw: 65536 },
    }
}

/// Rotation about the z axis from the cosine and sine of the angle.
pub open spec fn mat_rotate_z_spec(c: Fx, s: Fx) -> Matrix {
    Matrix {
        m00: c, m01: fneg(s), m02: Fx { raw: 0 }, m03: Fx { raw: 0 },
        m10: s, m11: c, m12: Fx { raw: 0 }, m13: Fx { raw: 0 },
        m20: Fx { raw: 0 }, m21: Fx { raw: 0 }, m22: Fx { raw: 65536 }, m23: Fx { raw: 0 },
        m30: Fx { raw: 0 }, m31: Fx { raw: 0 }, m32: Fx { raw: 0 }, m33: Fx { raw: 65536 },
    }
}

/// Determinant of a 3x3 block, rows given left to right, top to bottom.
fn det3(a: Fx, b: Fx, c: Fx, d: Fx, e: Fx, f: Fx, g: Fx, h: Fx, i: Fx) -> (r: Fx)
    ensures
        r == det3s(a, b, c, d, e, f, g, h, i),
{
    a.mul(&e.mul(&i).sub(&f.mul(&h))).sub(&b.mul(&d.mul(&i).sub(&f.mul(&g)))).add(
        &c.mul(&d.mul(&h).sub(&e.mul(&g))),
    )
}

impl Vector3 {
    /// This direction transformed by the columns of `mat`.
    pub fn mat_mul(&self, mat: &Matrix) -> (r: Vector3)
        ensures
            r == vec3_mat_mul(*self, *mat),
    {
        Vector3 {
            x: self.x.mul(&mat.m00).add(&self.y.mul(&mat.m10)).add(&self.z.mul(&mat.m20)),
            y: self.x.mul(&mat.m01).add(&self.y.mul(&mat.m11)).add(&self.z.mul(&mat.m21)),
            z: self.x.mul(&mat.m02).add(&self.y.mul(&mat.m12)).add(&self.z.mul(&mat.m22)),
        }
    }
}

impl Point3 {
    /// This point transformed by the columns of `mat`.
    pub fn mat_mul(&self, mat: &Matrix) -> (r: Point3)
        ensures
            r == pt_mat_mul(*self, *mat),
    {
        Point3 {
            x: self.x.mul(&mat.m00).add(&self.y.mul(&mat.m10)).add(&self.z.mul(&mat.m20)).add(&mat.m30),
            y: self.x.mul(&mat.m01).add(&self.y.mul(&mat.m11)).add(&self.z.mul(&mat.m21)).add(&mat.m31),
            z: self.x.mul(&mat.m02).add(&self.y.mul(&mat.m12)).add(&self.z.mul(&mat.m22)).add(&mat.m32),
        }
    }
}

impl Ray {
    /// This ray transformed by the columns of `mat` (origin and direction).
    pub fn mat_mul(&self, mat: &Matrix) -> (r: Ray)
        ensures
            r == (Ray { origin: pt_mat_mul(self.origin, *mat), direction: vec3_mat_mul(self.direction, *mat) }),
    {
        Ray { origin: self.origin.mat_mul(mat), direction: self.direction.mat_mul(mat) }
    }
}

} // verus!
