//! Tilt compensation: removes the rotation given by the current orientation
//! angles from a raw acceleration vector.
//!
//! The compensator consumes each angle through its sine and cosine, tagged
//! with whether the underlying reading was finite; a non-finite reading is
//! rejected before any matrix arithmetic. The three elemental rotations are
//! composed as `Rz * Ry * Rx` and the *product* is inverted.
//!
//! The angle-to-axis assignment is deliberately non-standard and must stay
//! so for behavioural parity with downstream consumers: the first angle
//! parameterizes the Y-axis rotation and the second the X-axis rotation.

use vstd::prelude::*;
use crate::rat::{lemma_canon_int, q_eq, q_int, q_neg, q_repr, Q, Rat};
use crate::mat3::{
    Mat3, QMat3, QVec3, Vec3, lemma_identity_dot_row0, lemma_identity_dot_row1,
    lemma_identity_dot_row2, qm_identity, qm_inverse, qm_inverse_ok, qm_mul, qm_mul_ok, qm_vec,
    qm_vec_ok,
};
use crate::filter::EstimationError;

verus! {

/// One orientation angle as the compensator reads it: whether the raw value
/// was finite, and if so the exact sine and cosine supplied for it.
#[derive(Clone, Copy, Debug, PartialEq, Eq, Structural)]
pub enum AngleReading {
    Finite { sin: Rat, cos: Rat },
    NonFinite,
}

impl AngleReading {
    /// Finite readings carry well-formed scalars.
    pub open spec fn wf(self) -> bool {
        match self {
            AngleReading::Finite { sin, cos } => sin.wf() && cos.wf(),
            AngleReading::NonFinite => true,
        }
    }

    /// Whether the raw angle was finite.
    pub open spec fn is_finite(self) -> bool {
        self is Finite
    }

    /// The sine of a finite reading.
    pub open spec fn sin_q(self) -> Q {
        match self {
            AngleReading::Finite { sin, cos } => sin.q(),
            AngleReading::NonFinite => q_int(0),
        }
    }

    /// The cosine of a finite reading.
    pub open spec fn cos_q(self) -> Q {
        match self {
            AngleReading::Finite { sin, cos } => cos.q(),
            AngleReading::NonFinite => q_int(0),
        }
    }

    /// Whether the raw angle was finite.
    pub fn finite(&self) -> (r: bool)
        ensures
            r == self.is_finite(),
    {
        match self {
            AngleReading::Finite { .. } => true,
            AngleReading::NonFinite => false,
        }
    }
}

/// One acceleration component as the compensator reads it.
#[derive(Clone, Copy, Debug, PartialEq, Eq, Structural)]
pub enum AccelReading {
    Finite(Rat),
    NonFinite,
}

impl AccelReading {
    /// A finite reading carries a well-formed scalar.
    pub open spec fn wf(self) -> bool {
        match self {
            AccelReading::Finite(v) => v.wf(),
            AccelReading::NonFinite => true,
        }
    }

    /// Whether the raw component was finite.
    pub open spec fn is_finite(self) -> bool {
        self is Finite
    }

    /// The value of a finite reading.
    pub open spec fn val_q(self) -> Q {
        match self {
            AccelReading::Finite(v) => v.q(),
            AccelReading::NonFinite => q_int(0),
        }
    }

    /// Whether the raw component was finite.
    pub fn finite(&self) -> (r: bool)
        ensures
            r == self.is_finite(),
    {
        match self {
            AccelReading::Finite(_) => true,
            AccelReading::NonFinite => false,
        }
    }
}

/// The elemental rotation about the X axis for sine `s` and cosine `c`.
pub open spec fn q_rot_x(s: Q, c: Q) -> QMat3 {
    QMat3 {
        m00: q_int(1),
        m01: q_int(0),
        m02: q_int(0),
        m10: q_int(0),
        m11: c,
        m12: q_neg(s),
        m20: q_int(0),
        m21: s,
        m22: c,
    }
}

/// The elemental rotation about the Y axis for sine `s` and cosine `c`.
pub open spec fn q_rot_y(s: Q, c: Q) -> QMat3 {
    QMat3 {
        m00: c,
        m01: q_int(0),
        m02: s,
        m10: q_int(0),
        m11: q_int(1),
        m12: q_int(0),
        m20: q_neg(s),
        m21: q_int(0),
        m22: c,
    }
}

/// The elemental rotation about the Z axis for sine `s` and cosine `c`.
pub open spec fn q_rot_z(s: Q, c: Q) -> QMat3 {
    QMat3 {
        m00: c,
        m01: q_neg(s),
        m02: q_int(0),
        m10: s,
        m11: c,
        m12: q_int(0),
        m20: q_int(0),
        m21: q_int(0),
        m22: q_int(1),
    }
}

/// The composed rotation `Rz * Ry * Rx`, from the sine and cosine feeding
/// each elemental rotation.
pub open spec fn q_rotation(sx: Q, cx: Q, sy: Q, cy: Q, sz: Q, cz: Q) -> QMat3 {
    qm_mul(qm_mul(q_rot_z(sz, cz), q_rot_y(sy, cy)), q_rot_x(sx, cx))
}

/// When the compensation of finite inputs succeeds: the negated sines, the
/// two matrix products, the inverse of the composed rotation and the final
/// matrix-vector product are all exactly representable, and the composed
/// rotation is not singular (see `qm_inverse_ok`).
pub open spec fn tilt_ok(sx: Q, cx: Q, sy: Q, cy: Q, sz: Q, cz: Q, acc: QVec3) -> bool {
    &&& q_repr(q_neg(sx))
    &&& q_repr(q_neg(sy))
    &&& q_repr(q_neg(sz))
    &&& qm_mul_ok(q_rot_z(sz, cz), q_rot_y(sy, cy))
    &&& qm_mul_ok(qm_mul(q_rot_z(sz, cz), q_rot_y(sy, cy)), q_rot_x(sx, cx))
    &&& qm_inverse_ok(q_rotation(sx, cx, sy, cy, sz, cz))
    &&& qm_vec_ok(qm_inverse(q_rotation(sx, cx, sy, cy, sz, cz)), acc)
}

/// Whether all six inputs of the compensator are finite.
pub open spec fn tilt_inputs_finite(
    angle_x: AngleReading,
    angle_y: AngleReading,
    angle_z: AngleReading,
    acc_x: AccelReading,
    acc_y: AccelReading,
    acc_z: AccelReading,
) -> bool {
    &&& angle_x.is_finite()
    &&& angle_y.is_finite()
    &&& angle_z.is_finite()
    &&& acc_x.is_finite()
    &&& acc_y.is_finite()
    &&& acc_z.is_finite()
}

/// The compensated acceleration: `inverse(Rz * Ry * Rx) * acc`, where —
/// as downstream consumers expect — the X-axis rotation is fed by the
/// second angle and the Y-axis rotation by the first.
pub open spec fn compensated(
    angle_x: AngleReading,
    angle_y: AngleReading,
    angle_z: AngleReading,
    acc: QVec3,
) -> QVec3 {
    qm_vec(
        qm_inverse(q_rotation(
            angle_y.sin_q(), angle_y.cos_q(),
            angle_x.sin_q(), angle_x.cos_q(),
            angle_z.sin_q(), angle_z.cos_q(),
        )),
        acc,
    )
}

/// Maps the measured acceleration out of the frame rotated by the current
/// orientation. Rejects any non-finite input before touching a matrix;
/// fails numerically, with nothing computed, exactly when the composed
/// rotation cannot be inverted within the representable range.
pub fn tilt_compensation(
    angle_x: &AngleReading,
    angle_y: &AngleReading,
    angle_z: &AngleReading,
    acc_x: &AccelReading,
    acc_y: &AccelReading,
    acc_z: &AccelReading,
) -> (r: Result<Vec3, EstimationError>)
    requires
        angle_x.wf(),
        angle_y.wf(),
        angle_z.wf(),
        acc_x.wf(),
        acc_y.wf(),
        acc_z.wf(),
    ensures
        r == Err::<Vec3, EstimationError>(EstimationError::InvalidInputError)
            <==> !tilt_inputs_finite(*angle_x, *angle_y, *angle_z, *acc_x, *acc_y, *acc_z),
        tilt_inputs_finite(*angle_x, *angle_y, *angle_z, *acc_x, *acc_y, *acc_z) ==> (
            r is Ok <==> tilt_ok(
                angle_y.sin_q(), angle_y.cos_q(),
                angle_x.sin_q(), angle_x.cos_q(),
                angle_z.sin_q(), angle_z.cos_q(),
                (QVec3 { x: acc_x.val_q(), y: acc_y.val_q(), z: acc_z.val_q() }),
            )
        ),
        r matches Ok(v) ==> v.wf() && v.q() == compensated(
            *angle_x, *angle_y, *angle_z,
            (QVec3 { x: acc_x.val_q(), y: acc_y.val_q(), z: acc_z.val_q() }),
        ),
{
    let (roll_sin, roll_cos) = match *angle_x {
        AngleReading::Finite { sin, cos } => (sin, cos),
        AngleReading::NonFinite => return Err(EstimationError::InvalidInputError),
    };
    let (pitch_sin, pitch_cos) = match *angle_y {
        AngleReading::Finite { sin, cos } => (sin, cos),
        AngleReading::NonFinite => return Err(EstimationError::InvalidInputError),
    };
    let (yaw_sin, yaw_cos) = match *angle_z {
        AngleReading::Finite { sin, cos } => (sin, cos),
        AngleReading::NonFinite => return Err(EstimationError::InvalidInputError),
    };
    let ax = match *acc_x {
        AccelReading::Finite(v) => v,
        AccelReading::NonFinite => return Err(EstimationError::InvalidInputError),
    };
    let ay = match *acc_y {
        AccelReading::Finite(v) => v,
        AccelReading::NonFinite => return Err(EstimationError::InvalidInputError),
    };
    let az = match *acc_z {
        AccelReading::Finite(v) => v,
        AccelReading::NonFinite => return Err(EstimationError::InvalidInputError),
    };
    let acc = Vec3::new(ax, ay, az);
    // Downstream consumers depend on this exact mapping: the X-axis
    // rotation is fed by the second angle and the Y-axis rotation by the
    // first.
    match compensate_values(pitch_sin, pitch_cos, roll_sin, roll_cos, yaw_sin, yaw_cos, acc) {
        Some(v) => Ok(v),
        None => Err(EstimationError::NumericalError),
    }
}

/// Builds the three elemental rotations in order, composes them as
/// `Rz * Ry * Rx`, inverts the product, and applies it to `acc`.
fn compensate_values(
    sx: Rat, cx: Rat,
    sy: Rat, cy: Rat,
    sz: Rat, cz: Rat,
    acc: Vec3,
) -> (r: Option<Vec3>)
    requires
        sx.wf(), cx.wf(), sy.wf(), cy.wf(), sz.wf(), cz.wf(),
        acc.wf(),
    ensures
        r is Some <==> tilt_ok(sx.q(), cx.q(), sy.q(), cy.q(), sz.q(), cz.q(), acc.q()),
        r matches Some(v) ==> v.wf() && v.q() == qm_vec(
            qm_inverse(q_rotation(sx.q(), cx.q(), sy.q(), cy.q(), sz.q(), cz.q())),
            acc.q(),
        ),
{
    let rot_x = rot_x_mat(sx, cx)?;
    let rot_y = rot_y_mat(sy, cy)?;
    let rot_z = rot_z_mat(sz, cz)?;
    let rot_zy = rot_z.mul(rot_y)?;
    let rot = rot_zy.mul(rot_x)?;
    let inv = rot.invert()?;
    inv.mul_vec(acc)
}

/// The elemental X-axis rotation matrix.
fn rot_x_mat(s: Rat, c: Rat) -> (r: Option<Mat3>)
    requires
        s.wf(),
        c.wf(),
    ensures
        r is Some <==> q_repr(q_neg(s.q())),
        r matches Some(m) ==> m.wf() && m.q() == q_rot_x(s.q(), c.q()),
{
    let ns = s.neg()?;
    Some(Mat3::new(
        Rat::from_int(1), Rat::from_int(0), Rat::from_int(0),
        Rat::from_int(0), c, ns,
        Rat::from_int(0), s, c,
    ))
}

/// The elemental Y-axis rotation matrix.
fn rot_y_mat(s: Rat, c: Rat) -> (r: Option<Mat3>)
    requires
        s.wf(),
        c.wf(),
    ensures
        r is Some <==> q_repr(q_neg(s.q())),
        r matches Some(m) ==> m.wf() && m.q() == q_rot_y(s.q(), c.q()),
{
    let ns = s.neg()?;
    Some(Mat3::new(
        c, Rat::from_int(0), s,
        Rat::from_int(0), Rat::from_int(1), Rat::from_int(0),
        ns, Rat::from_int(0), c,
    ))
}

/// The elemental Z-axis rotation matrix.
fn rot_z_mat(s: Rat, c: Rat) -> (r: Option<Mat3>)
    requires
        s.wf(),
        c.wf(),
    ensures
        r is Some <==> q_repr(q_neg(s.q())),
        r matches Some(m) ==> m.wf() && m.q() == q_rot_z(s.q(), c.q()),
{
    let ns = s.neg()?;
    Some(Mat3::new(
        c, ns, Rat::from_int(0),
        s, c, Rat::from_int(0),
        Rat::from_int(0), Rat::from_int(0), Rat::from_int(1),
    ))
}

/// Compensating with the identity rotation returns the acceleration
/// unchanged: when every sine is zero and every cosine is one, the composed
/// rotation is the identity and so is its inverse, so the compensated vector
/// equals the input componentwise.
pub proof fn lemma_identity_rotation_compensates_nothing(acc: QVec3)
    requires
        1 <= acc.x.d,
        1 <= acc.y.d,
        1 <= acc.z.d,
    ensures
        q_eq(qm_vec(qm_inverse(q_rotation(
            q_int(0), q_int(1), q_int(0), q_int(1), q_int(0), q_int(1),
        )), acc).x, acc.x),
        q_eq(qm_vec(qm_inverse(q_rotation(
            q_int(0), q_int(1), q_int(0), q_int(1), q_int(0), q_int(1),
        )), acc).y, acc.y),
        q_eq(qm_vec(qm_inverse(q_rotation(
            q_int(0), q_int(1), q_int(0), q_int(1), q_int(0), q_int(1),
        )), acc).z, acc.z),
{
    let rot = q_rotation(q_int(0), q_int(1), q_int(0), q_int(1), q_int(0), q_int(1));
    lemma_canon_int(q_int(0));
    lemma_canon_int(q_int(1));
    assert(rot == qm_identity());
    assert(qm_inverse(rot) == qm_identity());
    lemma_identity_dot_row0(acc.x, acc.y, acc.z);
    lemma_identity_dot_row1(acc.x, acc.y, acc.z);
    lemma_identity_dot_row2(acc.x, acc.y, acc.z);
}

} // verus!
