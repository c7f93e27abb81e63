//! Exact 3-vectors and 3x3 matrices over rational scalars.
//!
//! Every operation states its result entry by entry as the exact rational
//! formula, and reports `None` exactly when some intermediate exact value,
//! in canonical form, falls outside the representable 64-bit range.

use vstd::prelude::*;
use crate::rat::{
    Q, Rat, c_add, c_div, c_mul, c_sub, lemma_canon_eq, lemma_canon_zero, lemma_pos_product,
    lemma_q_eq_trans, q_add, q_eq, q_int, q_mul, q_repr, rat_of,
};

verus! {

/// Mathematical model of a 3-vector of rationals.
pub struct QVec3 {
    pub x: Q,
    pub y: Q,
    pub z: Q,
}

/// Mathematical model of a 3x3 matrix of rationals, row by row.
pub struct QMat3 {
    pub m00: Q,
    pub m01: Q,
    pub m02: Q,
    pub m10: Q,
    pub m11: Q,
    pub m12: Q,
    pub m20: Q,
    pub m21: Q,
    pub m22: Q,
}

/// Exact dot product of two rational 3-vectors, left-associated.
pub open spec fn q_dot(a0: Q, a1: Q, a2: Q, b0: Q, b1: Q, b2: Q) -> Q {
    c_add(c_add(c_mul(a0, b0), c_mul(a1, b1)), c_mul(a2, b2))
}

/// When every intermediate of the dot product is representable.
pub open spec fn q_dot_ok(a0: Q, a1: Q, a2: Q, b0: Q, b1: Q, b2: Q) -> bool {
    &&& q_repr(c_mul(a0, b0))
    &&& q_repr(c_mul(a1, b1))
    &&& q_repr(c_mul(a2, b2))
    &&& q_repr(c_add(c_mul(a0, b0), c_mul(a1, b1)))
    &&& q_repr(c_add(c_add(c_mul(a0, b0), c_mul(a1, b1)), c_mul(a2, b2)))
}

/// Exact difference of two products, `x*y - z*w`: one cofactor of a 3x3
/// matrix, and the building block of its determinant.
pub open spec fn q_cof(x: Q, y: Q, z: Q, w: Q) -> Q {
    c_sub(c_mul(x, y), c_mul(z, w))
}

/// When every intermediate of `x*y - z*w` is representable.
pub open spec fn q_cof_ok(x: Q, y: Q, z: Q, w: Q) -> bool {
    &&& q_repr(c_mul(x, y))
    &&& q_repr(c_mul(z, w))
    &&& q_repr(c_sub(c_mul(x, y), c_mul(z, w)))
}

/// Exact matrix product.
pub open spec fn qm_mul(a: QMat3, b: QMat3) -> QMat3 {
    QMat3 {
        m00: q_dot(a.m00, a.m01, a.m02, b.m00, b.m10, b.m20),
        m01: q_dot(a.m00, a.m01, a.m02, b.m01, b.m11, b.m21),
        m02: q_dot(a.m00, a.m01, a.m02, b.m02, b.m12, b.m22),
        m10: q_dot(a.m10, a.m11, a.m12, b.m00, b.m10, b.m20),
        m11: q_dot(a.m10, a.m11, a.m12, b.m01, b.m11, b.m21),
        m12: q_dot(a.m10, a.m11, a.m12, b.m02, b.m12, b.m22),
        m20: q_dot(a.m20, a.m21, a.m22, b.m00, b.m10, b.m20),
        m21: q_dot(a.m20, a.m21, a.m22, b.m01, b.m11, b.m21),
        m22: q_dot(a.m20, a.m21, a.m22, b.m02, b.m12, b.m22),
    }
}

/// When every intermediate of the matrix product is representable.
pub open spec fn qm_mul_ok(a: QMat3, b: QMat3) -> bool {
    &&& q_dot_ok(a.m00, a.m01, a.m02, b.m00, b.m10, b.m20)
    &&& q_dot_ok(a.m00, a.m01, a.m02, b.m01, b.m11, b.m21)
    &&& q_dot_ok(a.m00, a.m01, a.m02, b.m02, b.m12, b.m22)
    &&& q_dot_ok(a.m10, a.m11, a.m12, b.m00, b.m10, b.m20)
    &&& q_dot_ok(a.m10, a.m11, a.m12, b.m01, b.m11, b.m21)
    &&& q_dot_ok(a.m10, a.m11, a.m12, b.m02, b.m12, b.m22)
    &&& q_dot_ok(a.m20, a.m21, a.m22, b.m00, b.m10, b.m20)
    &&& q_dot_ok(a.m20, a.m21, a.m22, b.m01, b.m11, b.m21)
    &&& q_dot_ok(a.m20, a.m21, a.m22, b.m02, b.m12, b.m22)
}

/// Exact matrix-vector product.
pub open spec fn qm_vec(m: QMat3, v: QVec3) -> QVec3 {
    QVec3 {
        x: q_dot(m.m00, m.m01, m.m02, v.x, v.y, v.z),
        y: q_dot(m.m10, m.m11, m.m12, v.x, v.y, v.z),
        z: q_dot(m.m20, m.m21, m.m22, v.x, v.y, v.z),
    }
}

/// When every intermediate of the matrix-vector product is representable.
pub open spec fn qm_vec_ok(m: QMat3, v: QVec3) -> bool {
    &&& q_dot_ok(m.m00, m.m01, m.m02, v.x, v.y, v.z)
    &&& q_dot_ok(m.m10, m.m11, m.m12, v.x, v.y, v.z)
    &&& q_dot_ok(m.m20, m.m21, m.m22, v.x, v.y, v.z)
}

/// Exact entrywise matrix sum.
pub open spec fn qm_add(a: QMat3, b: QMat3) -> QMat3 {
    QMat3 {
        m00: c_add(a.m00, b.m00),
        m01: c_add(a.m01, b.m01),
        m02: c_add(a.m02, b.m02),
        m10: c_add(a.m10, b.m10),
        m11: c_add(a.m11, b.m11),
        m12: c_add(a.m12, b.m12),
        m20: c_add(a.m20, b.m20),
        m21: c_add(a.m21, b.m21),
        m22: c_add(a.m22, b.m22),
    }
}

/// When every entry of the matrix sum is representable.
pub open spec fn qm_add_ok(a: QMat3, b: QMat3) -> bool {
    &&& q_repr(c_add(a.m00, b.m00))
    &&& q_repr(c_add(a.m01, b.m01))
    &&& q_repr(c_add(a.m02, b.m02))
    &&& q_repr(c_add(a.m10, b.m10))
    &&& q_repr(c_add(a.m11, b.m11))
    &&& q_repr(c_add(a.m12, b.m12))
    &&& q_repr(c_add(a.m20, b.m20))
    &&& q_repr(c_add(a.m21, b.m21))
    &&& q_repr(c_add(a.m22, b.m22))
}

/// Exact entrywise matrix difference.
pub open spec fn qm_sub(a: QMat3, b: QMat3) -> QMat3 {
    QMat3 {
        m00: c_sub(a.m00, b.m00),
        m01: c_sub(a.m01, b.m01),
        m02: c_sub(a.m02, b.m02),
        m10: c_sub(a.m10, b.m10),
        m11: c_sub(a.m11, b.m11),
        m12: c_sub(a.m12, b.m12),
        m20: c_sub(a.m20, b.m20),
        m21: c_sub(a.m21, b.m21),
        m22: c_sub(a.m22, b.m22),
    }
}

/// When every entry of the matrix difference is representable.
pub open spec fn qm_sub_ok(a: QMat3, b: QMat3) -> bool {
    &&& q_repr(c_sub(a.m00, b.m00))
    &&& q_repr(c_sub(a.m01, b.m01))
    &&& q_repr(c_sub(a.m02, b.m02))
    &&& q_repr(c_sub(a.m10, b.m10))
    &&& q_repr(c_sub(a.m11, b.m11))
    &&& q_repr(c_sub(a.m12, b.m12))
    &&& q_repr(c_sub(a.m20, b.m20))
    &&& q_repr(c_sub(a.m21, b.m21))
    &&& q_repr(c_sub(a.m22, b.m22))
}

/// Exact transpose.
pub open spec fn qm_transpose(a: QMat3) -> QMat3 {
    QMat3 {
        m00: a.m00,
        m01: a.m10,
        m02: a.m20,
        m10: a.m01,
        m11: a.m11,
        m12: a.m21,
        m20: a.m02,
        m21: a.m12,
        m22: a.m22,
    }
}

/// Exact entrywise vector sum.
pub open spec fn qv_add(a: QVec3, b: QVec3) -> QVec3 {
    QVec3 { x: c_add(a.x, b.x), y: c_add(a.y, b.y), z: c_add(a.z, b.z) }
}

/// When every entry of the vector sum is representable.
pub open spec fn qv_add_ok(a: QVec3, b: QVec3) -> bool {
    q_repr(c_add(a.x, b.x)) && q_repr(c_add(a.y, b.y)) && q_repr(c_add(a.z, b.z))
}

/// Exact entrywise vector difference.
pub open spec fn qv_sub(a: QVec3, b: QVec3) -> QVec3 {
    QVec3 { x: c_sub(a.x, b.x), y: c_sub(a.y, b.y), z: c_sub(a.z, b.z) }
}

/// When every entry of the vector difference is representable.
pub open spec fn qv_sub_ok(a: QVec3, b: QVec3) -> bool {
    q_repr(c_sub(a.x, b.x)) && q_repr(c_sub(a.y, b.y)) && q_repr(c_sub(a.z, b.z))
}

/// Exact determinant by expansion along the first row.
pub open spec fn q_det(m: QMat3) -> Q {
    c_add(
        c_sub(
            c_mul(m.m00, q_cof(m.m11, m.m22, m.m12, m.m21)),
            c_mul(m.m01, q_cof(m.m10, m.m22, m.m12, m.m20)),
        ),
        c_mul(m.m02, q_cof(m.m10, m.m21, m.m11, m.m20)),
    )
}

/// When every intermediate of the determinant is representable.
pub open spec fn q_det_ok(m: QMat3) -> bool {
    &&& q_cof_ok(m.m11, m.m22, m.m12, m.m21)
    &&& q_cof_ok(m.m10, m.m22, m.m12, m.m20)
    &&& q_cof_ok(m.m10, m.m21, m.m11, m.m20)
    &&& q_repr(c_mul(m.m00, q_cof(m.m11, m.m22, m.m12, m.m21)))
    &&& q_repr(c_mul(m.m01, q_cof(m.m10, m.m22, m.m12, m.m20)))
    &&& q_repr(c_mul(m.m02, q_cof(m.m10, m.m21, m.m11, m.m20)))
    &&& q_repr(c_sub(
        c_mul(m.m00, q_cof(m.m11, m.m22, m.m12, m.m21)),
        c_mul(m.m01, q_cof(m.m10, m.m22, m.m12, m.m20)),
    ))
    &&& q_repr(q_det(m))
}

/// Exact adjugate (transposed cofactor matrix).
pub open spec fn qm_adjugate(m: QMat3) -> QMat3 {
    QMat3 {
        m00: q_cof(m.m11, m.m22, m.m12, m.m21),
        m01: q_cof(m.m02, m.m21, m.m01, m.m22),
        m02: q_cof(m.m01, m.m12, m.m02, m.m11),
        m10: q_cof(m.m12, m.m20, m.m10, m.m22),
        m11: q_cof(m.m00, m.m22, m.m02, m.m20),
        m12: q_cof(m.m02, m.m10, m.m00, m.m12),
        m20: q_cof(m.m10, m.m21, m.m11, m.m20),
        m21: q_cof(m.m01, m.m20, m.m00, m.m21),
        m22: q_cof(m.m00, m.m11, m.m01, m.m10),
    }
}

/// Exact inverse: the adjugate divided by the determinant.
pub open spec fn qm_inverse(m: QMat3) -> QMat3 {
    QMat3 {
        m00: c_div(qm_adjugate(m).m00, q_det(m)),
        m01: c_div(qm_adjugate(m).m01, q_det(m)),
        m02: c_div(qm_adjugate(m).m02, q_det(m)),
        m10: c_div(qm_adjugate(m).m10, q_det(m)),
        m11: c_div(qm_adjugate(m).m11, q_det(m)),
        m12: c_div(qm_adjugate(m).m12, q_det(m)),
        m20: c_div(qm_adjugate(m).m20, q_det(m)),
        m21: c_div(qm_adjugate(m).m21, q_det(m)),
        m22: c_div(qm_adjugate(m).m22, q_det(m)),
    }
}

/// When the inverse exists and every intermediate is representable: the
/// determinant chain is representable, the determinant is nonzero, and each
/// adjugate entry and each quotient is representable.
pub open spec fn qm_inverse_ok(m: QMat3) -> bool {
    &&& q_det_ok(m)
    &&& !q_eq(q_det(m), q_int(0))
    &&& q_cof_ok(m.m11, m.m22, m.m12, m.m21)
    &&& q_cof_ok(m.m02, m.m21, m.m01, m.m22)
    &&& q_cof_ok(m.m01, m.m12, m.m02, m.m11)
    &&& q_cof_ok(m.m12, m.m20, m.m10, m.m22)
    &&& q_cof_ok(m.m00, m.m22, m.m02, m.m20)
    &&& q_cof_ok(m.m02, m.m10, m.m00, m.m12)
    &&& q_cof_ok(m.m10, m.m21, m.m11, m.m20)
    &&& q_cof_ok(m.m01, m.m20, m.m00, m.m21)
    &&& q_cof_ok(m.m00, m.m11, m.m01, m.m10)
    &&& q_repr(c_div(qm_adjugate(m).m00, q_det(m)))
    &&& q_repr(c_div(qm_adjugate(m).m01, q_det(m)))
    &&& q_repr(c_div(qm_adjugate(m).m02, q_det(m)))
    &&& q_repr(c_div(qm_adjugate(m).m10, q_det(m)))
    &&& q_repr(c_div(qm_adjugate(m).m11, q_det(m)))
    &&& q_repr(c_div(qm_adjugate(m).m12, q_det(m)))
    &&& q_repr(c_div(qm_adjugate(m).m20, q_det(m)))
    &&& q_repr(c_div(qm_adjugate(m).m21, q_det(m)))
    &&& q_repr(c_div(qm_adjugate(m).m22, q_det(m)))
}

/// The identity matrix model, with unit denominators.
pub open spec fn qm_identity() -> QMat3 {
    QMat3 {
        m00: q_int(1),
        m01: q_int(0),
        m02: q_int(0),
        m10: q_int(0),
        m11: q_int(1),
        m12: q_int(0),
        m20: q_int(0),
        m21: q_int(0),
        m22: q_int(1),
    }
}

/// The zero matrix model, with unit denominators.
pub open spec fn qm_zero() -> QMat3 {
    QMat3 {
        m00: q_int(0),
        m01: q_int(0),
        m02: q_int(0),
        m10: q_int(0),
        m11: q_int(0),
        m12: q_int(0),
        m20: q_int(0),
        m21: q_int(0),
        m22: q_int(0),
    }
}

/// The zero vector model, with unit denominators.
pub open spec fn qv_zero() -> QVec3 {
    QVec3 { x: q_int(0), y: q_int(0), z: q_int(0) }
}

/// The vector denoting a representable rational 3-vector.
pub open spec fn vec_of(v: QVec3) -> Vec3 {
    Vec3 { x: rat_of(v.x), y: rat_of(v.y), z: rat_of(v.z) }
}

/// The matrix denoting a representable rational 3x3 matrix.
pub open spec fn mat_of(m: QMat3) -> Mat3 {
    Mat3 {
        m00: rat_of(m.m00),
        m01: rat_of(m.m01),
        m02: rat_of(m.m02),
        m10: rat_of(m.m10),
        m11: rat_of(m.m11),
        m12: rat_of(m.m12),
        m20: rat_of(m.m20),
        m21: rat_of(m.m21),
        m22: rat_of(m.m22),
    }
}

/// An exact rational 3-vector.
#[derive(Clone, Copy, Debug, PartialEq, Eq, Structural)]
pub struct Vec3 {
    pub x: Rat,
    pub y: Rat,
    pub z: Rat,
}

impl Vec3 {
    /// The rational vector this value denotes.
    pub open spec fn q(self) -> QVec3 {
        QVec3 { x: self.x.q(), y: self.y.q(), z: self.z.q() }
    }

    /// All components are well-formed scalars.
    pub open spec fn wf(self) -> bool {
        self.x.wf() && self.y.wf() && self.z.wf()
    }

    /// Builds a vector from its components.
    pub fn new(x: Rat, y: Rat, z: Rat) -> (r: Vec3)
        ensures
            r == (Vec3 { x, y, z }),
    {
        Vec3 { x, y, z }
    }

    /// The zero vector.
    pub fn zero() -> (r: Vec3)
        ensures
            r.wf(),
            r.q() == qv_zero(),
    {
        Vec3 { x: Rat::from_int(0), y: Rat::from_int(0), z: Rat::from_int(0) }
    }

    /// Checked entrywise sum.
    pub fn add(self, rhs: Vec3) -> (r: Option<Vec3>)
        requires
            self.wf(),
            rhs.wf(),
        ensures
            r is Some <==> qv_add_ok(self.q(), rhs.q()),
            r matches Some(v) ==> v.wf() && v.q() == qv_add(self.q(), rhs.q()),
    {
        let x = self.x.add(rhs.x)?;
        let y = self.y.add(rhs.y)?;
        let z = self.z.add(rhs.z)?;
        Some(Vec3 { x, y, z })
    }

    /// Checked entrywise difference.
    pub fn sub(self, rhs: Vec3) -> (r: Option<Vec3>)
        requires
            self.wf(),
            rhs.wf(),
        ensures
            r is Some <==> qv_sub_ok(self.q(), rhs.q()),
            r matches Some(v) ==> v.wf() && v.q() == qv_sub(self.q(), rhs.q()),
    {
        let x = self.x.sub(rhs.x)?;
        let y = self.y.sub(rhs.y)?;
        let z = self.z.sub(rhs.z)?;
        Some(Vec3 { x, y, z })
    }
}

/// An exact rational 3x3 matrix, row by row.
#[derive(Clone, Copy, Debug, PartialEq, Eq, Structural)]
pub struct Mat3 {
    pub m00: Rat,
    pub m01: Rat,
    pub m02: Rat,
    pub m10: Rat,
    pub m11: Rat,
    pub m12: Rat,
    pub m20: Rat,
    pub m21: Rat,
    pub m22: Rat,
}

impl Mat3 {
    /// The rational matrix this value denotes.
    pub open spec fn q(self) -> QMat3 {
        QMat3 {
            m00: self.m00.q(),
            m01: self.m01.q(),
            m02: self.m02.q(),
            m10: self.m10.q(),
            m11: self.m11.q(),
            m12: self.m12.q(),
            m20: self.m20.q(),
            m21: self.m21.q(),
            m22: self.m22.q(),
        }
    }

    /// All entries are well-formed scalars.
    pub open spec fn wf(self) -> bool {
        &&& self.m00.wf()
        &&& self.m01.wf()
        &&& self.m02.wf()
        &&& self.m10.wf()
        &&& self.m11.wf()
        &&& self.m12.wf()
        &&& self.m20.wf()
        &&& self.m21.wf()
        &&& self.m22.wf()
    }

    /// Builds a matrix from its rows.
    pub fn new(
        m00: Rat, m01: Rat, m02: Rat,
        m10: Rat, m11: Rat, m12: Rat,
        m20: Rat, m21: Rat, m22: Rat,
    ) -> (r: Mat3)
        ensures
            r == (Mat3 { m00, m01, m02, m10, m11, m12, m20, m21, m22 }),
    {
        Mat3 { m00, m01, m02, m10, m11, m12, m20, m21, m22 }
    }

    /// The identity matrix.
    pub fn identity() -> (r: Mat3)
        ensures
            r.wf(),
            r.q() == qm_identity(),
    {
        Mat3 {
            m00: Rat::from_int(1),
            m01: Rat::from_int(0),
            m02: Rat::from_int(0),
            m10: Rat::from_int(0),
            m11: Rat::from_int(1),
            m12: Rat::from_int(0),
            m20: Rat::from_int(0),
            m21: Rat::from_int(0),
            m22: Rat::from_int(1),
        }
    }

    /// The zero matrix.
    pub fn zero() -> (r: Mat3)
        ensures
            r.wf(),
            r.q() == qm_zero(),
    {
        Mat3 {
            m00: Rat::from_int(0),
            m01: Rat::from_int(0),
            m02: Rat::from_int(0),
            m10: Rat::from_int(0),
            m11: Rat::from_int(0),
            m12: Rat::from_int(0),
            m20: Rat::from_int(0),
            m21: Rat::from_int(0),
            m22: Rat::from_int(0),
        }
    }

    /// The diagonal matrix with the same scalar on every diagonal entry.
    pub fn diagonal(r: Rat) -> (m: Mat3)
        requires
            r.wf(),
        ensures
            m.wf(),
            m.m00 == r && m.m11 == r && m.m22 == r,
            m.m01.q() == q_int(0) && m.m02.q() == q_int(0),
            m.m10.q() == q_int(0) && m.m12.q() == q_int(0),
            m.m20.q() == q_int(0) && m.m21.q() == q_int(0),
    {
        Mat3 {
            m00: r,
            m01: Rat::from_int(0),
            m02: Rat::from_int(0),
            m10: Rat::from_int(0),
            m11: r,
            m12: Rat::from_int(0),
            m20: Rat::from_int(0),
            m21: Rat::from_int(0),
            m22: r,
        }
    }

    /// Exact transpose.
    pub fn transpose(self) -> (r: Mat3)
        requires
            self.wf(),
        ensures
            r.wf(),
            r.q() == qm_transpose(self.q()),
    {
        Mat3 {
            m00: self.m00,
            m01: self.m10,
            m02: self.m20,
            m10: self.m01,
            m11: self.m11,
            m12: self.m21,
            m20: self.m02,
            m21: self.m12,
            m22: self.m22,
        }
    }

    /// Checked matrix product.
    pub fn mul(self, rhs: Mat3) -> (r: Option<Mat3>)
        requires
            self.wf(),
            rhs.wf(),
        ensures
            r is Some <==> qm_mul_ok(self.q(), rhs.q()),
            r matches Some(m) ==> m.wf() && m.q() == qm_mul(self.q(), rhs.q()),
    {
        let m00 = rat_dot(self.m00, self.m01, self.m02, rhs.m00, rhs.m10, rhs.m20)?;
        let m01 = rat_dot(self.m00, self.m01, self.m02, rhs.m01, rhs.m11, rhs.m21)?;
        let m02 = rat_dot(self.m00, self.m01, self.m02, rhs.m02, rhs.m12, rhs.m22)?;
        let m10 = rat_dot(self.m10, self.m11, self.m12, rhs.m00, rhs.m10, rhs.m20)?;
        let m11 = rat_dot(self.m10, self.m11, self.m12, rhs.m01, rhs.m11, rhs.m21)?;
        let m12 = rat_dot(self.m10, self.m11, self.m12, rhs.m02, rhs.m12, rhs.m22)?;
        let m20 = rat_dot(self.m20, self.m21, self.m22, rhs.m00, rhs.m10, rhs.m20)?;
        let m21 = rat_dot(self.m20, self.m21, self.m22, rhs.m01, rhs.m11, rhs.m21)?;
        let m22 = rat_dot(self.m20, self.m21, self.m22, rhs.m02, rhs.m12, rhs.m22)?;
        Some(Mat3 { m00, m01, m02, m10, m11, m12, m20, m21, m22 })
    }

    /// Checked matrix-vector product.
    pub fn mul_vec(self, v: Vec3) -> (r: Option<Vec3>)
        requires
            self.wf(),
            v.wf(),
        ensures
            r is Some <==> qm_vec_ok(self.q(), v.q()),
            r matches Some(w) ==> w.wf() && w.q() == qm_vec(self.q(), v.q()),
    {
        let x = rat_dot(self.m00, self.m01, self.m02, v.x, v.y, v.z)?;
        let y = rat_dot(self.m10, self.m11, self.m12, v.x, v.y, v.z)?;
        let z = rat_dot(self.m20, self.m21, self.m22, v.x, v.y, v.z)?;
        Some(Vec3 { x, y, z })
    }

    /// Checked entrywise sum.
    pub fn add(self, rhs: Mat3) -> (r: Option<Mat3>)
        requires
            self.wf(),
            rhs.wf(),
        ensures
            r is Some <==> qm_add_ok(self.q(), rhs.q()),
            r matches Some(m) ==> m.wf() && m.q() == qm_add(self.q(), rhs.q()),
    {
        let m00 = self.m00.add(rhs.m00)?;
        let m01 = self.m01.add(rhs.m01)?;
        let m02 = self.m02.add(rhs.m02)?;
        let m10 = self.m10.add(rhs.m10)?;
        let m11 = self.m11.add(rhs.m11)?;
        let m12 = self.m12.add(rhs.m12)?;
        let m20 = self.m20.add(rhs.m20)?;
        let m21 = self.m21.add(rhs.m21)?;
        let m22 = self.m22.add(rhs.m22)?;
        Some(Mat3 { m00, m01, m02, m10, m11, m12, m20, m21, m22 })
    }

    /// Checked entrywise difference.
    pub fn sub(self, rhs: Mat3) -> (r: Option<Mat3>)
        requires
            self.wf(),
            rhs.wf(),
        ensures
            r is Some <==> qm_sub_ok(self.q(), rhs.q()),
            r matches Some(m) ==> m.wf() && m.q() == qm_sub(self.q(), rhs.q()),
    {
        let m00 = self.m00.sub(rhs.m00)?;
        let m01 = self.m01.sub(rhs.m01)?;
        let m02 = self.m02.sub(rhs.m02)?;
        let m10 = self.m10.sub(rhs.m10)?;
        let m11 = self.m11.sub(rhs.m11)?;
        let m12 = self.m12.sub(rhs.m12)?;
        let m20 = self.m20.sub(rhs.m20)?;
        let m21 = self.m21.sub(rhs.m21)?;
        let m22 = self.m22.sub(rhs.m22)?;
        Some(Mat3 { m00, m01, m02, m10, m11, m12, m20, m21, m22 })
    }

    /// Checked determinant, by expansion along the first row.
    pub fn det(self) -> (r: Option<Rat>)
        requires
            self.wf(),
        ensures
            r is Some <==> q_det_ok(self.q()),
            r matches Some(v) ==> v.wf() && v.q() == q_det(self.q()),
    {
        let c0 = rat_cof(self.m11, self.m22, self.m12, self.m21)?;
        let c1 = rat_cof(self.m10, self.m22, self.m12, self.m20)?;
        let c2 = rat_cof(self.m10, self.m21, self.m11, self.m20)?;
        let t0 = self.m00.mul(c0)?;
        let t1 = self.m01.mul(c1)?;
        let t2 = self.m02.mul(c2)?;
        let s = t0.sub(t1)?;
        s.add(t2)
    }

    /// Checked inverse by the adjugate formula; `None` exactly when the
    /// determinant chain overflows, the matrix is singular, or an entry of
    /// the exact inverse is unrepresentable.
    pub fn invert(self) -> (r: Option<Mat3>)
        requires
            self.wf(),
        ensures
            r is Some <==> qm_inverse_ok(self.q()),
            r matches Some(m) ==> m.wf() && m.q() == qm_inverse(self.q()),
    {
        let dt = self.det()?;
        if dt.is_zero() {
            return None;
        }
        let a00 = rat_cof(self.m11, self.m22, self.m12, self.m21)?;
        let a01 = rat_cof(self.m02, self.m21, self.m01, self.m22)?;
        let a02 = rat_cof(self.m01, self.m12, self.m02, self.m11)?;
        let a10 = rat_cof(self.m12, self.m20, self.m10, self.m22)?;
        let a11 = rat_cof(self.m00, self.m22, self.m02, self.m20)?;
        let a12 = rat_cof(self.m02, self.m10, self.m00, self.m12)?;
        let a20 = rat_cof(self.m10, self.m21, self.m11, self.m20)?;
        let a21 = rat_cof(self.m01, self.m20, self.m00, self.m21)?;
        let a22 = rat_cof(self.m00, self.m11, self.m01, self.m10)?;
        let m00 = a00.div(dt)?;
        let m01 = a01.div(dt)?;
        let m02 = a02.div(dt)?;
        let m10 = a10.div(dt)?;
        let m11 = a11.div(dt)?;
        let m12 = a12.div(dt)?;
        let m20 = a20.div(dt)?;
        let m21 = a21.div(dt)?;
        let m22 = a22.div(dt)?;
        Some(Mat3 { m00, m01, m02, m10, m11, m12, m20, m21, m22 })
    }
}

/// A dot product of well-formed rationals keeps a positive denominator.
pub proof fn lemma_dot_den_pos(a0: Q, a1: Q, a2: Q, b0: Q, b1: Q, b2: Q)
    requires
        1 <= a0.d,
        1 <= a1.d,
        1 <= a2.d,
        1 <= b0.d,
        1 <= b1.d,
        1 <= b2.d,
    ensures
        1 <= q_dot(a0, a1, a2, b0, b1, b2).d,
{
    lemma_pos_product(a0.d, b0.d);
    lemma_canon_eq(q_mul(a0, b0));
    lemma_pos_product(a1.d, b1.d);
    lemma_canon_eq(q_mul(a1, b1));
    lemma_pos_product(a2.d, b2.d);
    lemma_canon_eq(q_mul(a2, b2));
    let p0 = c_mul(a0, b0);
    let p1 = c_mul(a1, b1);
    let p2 = c_mul(a2, b2);
    lemma_pos_product(p0.d, p1.d);
    lemma_canon_eq(q_add(p0, p1));
    let s1 = c_add(p0, p1);
    lemma_pos_product(s1.d, p2.d);
    lemma_canon_eq(q_add(s1, p2));
}

/// Dotting the first identity row with a column picks its first entry.
pub proof fn lemma_identity_dot_row0(c0: Q, c1: Q, c2: Q)
    requires
        1 <= c0.d,
        1 <= c1.d,
        1 <= c2.d,
    ensures
        q_eq(q_dot(q_int(1), q_int(0), q_int(0), c0, c1, c2), c0),
        1 <= q_dot(q_int(1), q_int(0), q_int(0), c0, c1, c2).d,
{
    assert(q_mul(q_int(1), c0) == c0);
    lemma_canon_eq(c0);
    lemma_canon_zero(q_mul(q_int(0), c1));
    lemma_canon_zero(q_mul(q_int(0), c2));
    let t0 = c_mul(q_int(1), c0);
    let s1 = c_add(t0, c_mul(q_int(0), c1));
    assert(q_add(t0, (Q { n: 0, d: 1 })) == t0);
    lemma_canon_eq(t0);
    lemma_q_eq_trans(s1, t0, c0);
    let s2 = c_add(s1, c_mul(q_int(0), c2));
    assert(q_add(s1, (Q { n: 0, d: 1 })) == s1);
    lemma_canon_eq(s1);
    lemma_q_eq_trans(s2, s1, c0);
}

/// Dotting the second identity row with a column picks its second entry.
pub proof fn lemma_identity_dot_row1(c0: Q, c1: Q, c2: Q)
    requires
        1 <= c0.d,
        1 <= c1.d,
        1 <= c2.d,
    ensures
        q_eq(q_dot(q_int(0), q_int(1), q_int(0), c0, c1, c2), c1),
        1 <= q_dot(q_int(0), q_int(1), q_int(0), c0, c1, c2).d,
{
    lemma_canon_zero(q_mul(q_int(0), c0));
    assert(q_mul(q_int(1), c1) == c1);
    lemma_canon_eq(c1);
    lemma_canon_zero(q_mul(q_int(0), c2));
    let t1 = c_mul(q_int(1), c1);
    let s1 = c_add(c_mul(q_int(0), c0), t1);
    assert(q_add((Q { n: 0, d: 1 }), t1) == t1);
    lemma_canon_eq(t1);
    lemma_q_eq_trans(s1, t1, c1);
    let s2 = c_add(s1, c_mul(q_int(0), c2));
    assert(q_add(s1, (Q { n: 0, d: 1 })) == s1);
    lemma_canon_eq(s1);
    lemma_q_eq_trans(s2, s1, c1);
}

/// Dotting the third identity row with a column picks its third entry.
pub proof fn lemma_identity_dot_row2(c0: Q, c1: Q, c2: Q)
    requires
        1 <= c0.d,
        1 <= c1.d,
        1 <= c2.d,
    ensures
        q_eq(q_dot(q_int(0), q_int(0), q_int(1), c0, c1, c2), c2),
        1 <= q_dot(q_int(0), q_int(0), q_int(1), c0, c1, c2).d,
{
    assert(q_mul(q_int(1), c2) == (Q { n: 1 * c2.n, d: 1 * c2.d }));
    assert(q_mul(q_int(1), c2) == c2);
    lemma_canon_zero(q_mul(q_int(0), c0));
    lemma_canon_zero(q_mul(q_int(0), c1));
    lemma_canon_eq(c2);
    let s1 = c_add(c_mul(q_int(0), c0), c_mul(q_int(0), c1));
    assert(q_add((Q { n: 0, d: 1 }), (Q { n: 0, d: 1 })) == (Q { n: 0, d: 1 }));
    lemma_canon_zero(Q { n: 0, d: 1 });
    let t2 = c_mul(q_int(1), c2);
    let s2 = c_add(s1, t2);
    assert(q_add((Q { n: 0, d: 1 }), t2) == t2);
    lemma_canon_eq(t2);
    lemma_q_eq_trans(s2, t2, c2);
}

/// Dotting a row with the first identity column picks its first entry.
pub proof fn lemma_identity_dot_col0(v0: Q, v1: Q, v2: Q)
    requires
        1 <= v0.d,
        1 <= v1.d,
        1 <= v2.d,
    ensures
        q_eq(q_dot(v0, v1, v2, q_int(1), q_int(0), q_int(0)), v0),
        1 <= q_dot(v0, v1, v2, q_int(1), q_int(0), q_int(0)).d,
{
    assert(q_mul(v0, q_int(1)) == v0);
    lemma_canon_eq(v0);
    lemma_canon_zero(q_mul(v1, q_int(0)));
    lemma_canon_zero(q_mul(v2, q_int(0)));
    let t0 = c_mul(v0, q_int(1));
    let s1 = c_add(t0, c_mul(v1, q_int(0)));
    assert(q_add(t0, (Q { n: 0, d: 1 })) == t0);
    lemma_canon_eq(t0);
    lemma_q_eq_trans(s1, t0, v0);
    let s2 = c_add(s1, c_mul(v2, q_int(0)));
    assert(q_add(s1, (Q { n: 0, d: 1 })) == s1);
    lemma_canon_eq(s1);
    lemma_q_eq_trans(s2, s1, v0);
}

/// Dotting a row with the second identity column picks its second entry.
pub proof fn lemma_identity_dot_col1(v0: Q, v1: Q, v2: Q)
    requires
        1 <= v0.d,
        1 <= v1.d,
        1 <= v2.d,
    ensures
        q_eq(q_dot(v0, v1, v2, q_int(0), q_int(1), q_int(0)), v1),
        1 <= q_dot(v0, v1, v2, q_int(0), q_int(1), q_int(0)).d,
{
    lemma_canon_zero(q_mul(v0, q_int(0)));
    assert(q_mul(v1, q_int(1)) == v1);
    lemma_canon_eq(v1);
    lemma_canon_zero(q_mul(v2, q_int(0)));
    let t1 = c_mul(v1, q_int(1));
    let s1 = c_add(c_mul(v0, q_int(0)), t1);
    assert(q_add((Q { n: 0, d: 1 }), t1) == t1);
    lemma_canon_eq(t1);
    lemma_q_eq_trans(s1, t1, v1);
    let s2 = c_add(s1, c_mul(v2, q_int(0)));
    assert(q_add(s1, (Q { n: 0, d: 1 })) == s1);
    lemma_canon_eq(s1);
    lemma_q_eq_trans(s2, s1, v1);
}

/// Dotting a row with the third identity column picks its third entry.
pub proof fn lemma_identity_dot_col2(v0: Q, v1: Q, v2: Q)
    requires
        1 <= v0.d,
        1 <= v1.d,
        1 <= v2.d,
    ensures
        q_eq(q_dot(v0, v1, v2, q_int(0), q_int(0), q_int(1)), v2),
        1 <= q_dot(v0, v1, v2, q_int(0), q_int(0), q_int(1)).d,
{
    assert(q_mul(v2, q_int(1)) == (Q { n: v2.n * 1, d: v2.d * 1 }));
    assert(q_mul(v2, q_int(1)) == v2);
    lemma_canon_zero(q_mul(v0, q_int(0)));
    lemma_canon_zero(q_mul(v1, q_int(0)));
    lemma_canon_eq(v2);
    let s1 = c_add(c_mul(v0, q_int(0)), c_mul(v1, q_int(0)));
    assert(q_add((Q { n: 0, d: 1 }), (Q { n: 0, d: 1 })) == (Q { n: 0, d: 1 }));
    lemma_canon_zero(Q { n: 0, d: 1 });
    let t2 = c_mul(v2, q_int(1));
    let s2 = c_add(s1, t2);
    assert(q_add((Q { n: 0, d: 1 }), t2) == t2);
    lemma_canon_eq(t2);
    lemma_q_eq_trans(s2, t2, v2);
}

/// Checked dot product of two rational 3-vectors given by components.
fn rat_dot(a0: Rat, a1: Rat, a2: Rat, b0: Rat, b1: Rat, b2: Rat) -> (r: Option<Rat>)
    requires
        a0.wf(), a1.wf(), a2.wf(),
        b0.wf(), b1.wf(), b2.wf(),
    ensures
        r is Some <==> q_dot_ok(a0.q(), a1.q(), a2.q(), b0.q(), b1.q(), b2.q()),
        r matches Some(v) ==> v.wf()
            && v.q() == q_dot(a0.q(), a1.q(), a2.q(), b0.q(), b1.q(), b2.q()),
{
    let p0 = a0.mul(b0)?;
    let p1 = a1.mul(b1)?;
    let p2 = a2.mul(b2)?;
    let s = p0.add(p1)?;
    s.add(p2)
}

/// Checked difference of two products, `x*y - z*w`.
fn rat_cof(x: Rat, y: Rat, z: Rat, w: Rat) -> (r: Option<Rat>)
    requires
        x.wf(), y.wf(), z.wf(), w.wf(),
    ensures
        r is Some <==> q_cof_ok(x.q(), y.q(), z.q(), w.q()),
        r matches Some(v) ==> v.wf() && v.q() == q_cof(x.q(), y.q(), z.q(), w.q()),
{
    let p0 = x.mul(y)?;
    let p1 = z.mul(w)?;
    p0.sub(p1)
}

} // verus!
