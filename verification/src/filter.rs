//! Discrete linear Kalman filter over a 3-dimensional acceleration state.
//!
//! The filter owns a state estimate and its covariance together with the five
//! fixed model matrices. `predict` and `update` mutate only state and
//! covariance, and state exactly what the new values are; any failure — a
//! singular innovation covariance, or an exact intermediate outside the
//! representable range — is reported as a recoverable error and leaves the
//! filter untouched.

use vstd::prelude::*;
use crate::rat::{lemma_q_eq_trans, lemma_q_lt_add_pos, q_int, q_lt};
use crate::mat3::{
    Mat3, QMat3, QVec3, Vec3, lemma_dot_den_pos, lemma_identity_dot_col0, lemma_identity_dot_col1,
    lemma_identity_dot_col2, lemma_identity_dot_row0, lemma_identity_dot_row1,
    lemma_identity_dot_row2, mat_of, qm_add, qm_add_ok, qm_identity, qm_inverse, qm_inverse_ok,
    qm_mul, qm_mul_ok, qm_sub, qm_sub_ok, qm_transpose, qm_vec, qm_vec_ok, qv_add, qv_add_ok,
    qv_sub, qv_sub_ok, vec_of,
};

verus! {

/// How the estimation core can fail on one sample. Both conditions are
/// recoverable: the caller skips the sample (or the update step) and goes on.
#[derive(Clone, Copy, Debug, PartialEq, Eq, Structural)]
pub enum EstimationError {
    /// A matrix inversion met a singular matrix, or an exact intermediate
    /// left the representable range.
    NumericalError,
    /// A sample carried a non-finite component and was rejected before any
    /// matrix arithmetic.
    InvalidInputError,
}

/// The Kalman filter: a 3-dimensional state estimate, its covariance, and
/// the fixed matrices of the linear model. Only `state` and `cov` are ever
/// mutated after construction.
#[derive(Clone, Copy, Debug, PartialEq, Eq, Structural)]
pub struct KalmanFilter {
    pub state: Vec3,
    pub cov: Mat3,
    pub transition: Mat3,
    pub control: Mat3,
    pub measurement: Mat3,
    pub process_noise: Mat3,
    pub measurement_noise: Mat3,
}

/// The state after a predict step: `Transition*state + Control*u`.
pub open spec fn predict_state(f: KalmanFilter, u: QVec3) -> QVec3 {
    qv_add(qm_vec(f.transition.q(), f.state.q()), qm_vec(f.control.q(), u))
}

/// The covariance after a predict step:
/// `Transition*cov*Transition^T + ProcessNoise`.
pub open spec fn predict_cov(f: KalmanFilter) -> QMat3 {
    qm_add(
        qm_mul(qm_mul(f.transition.q(), f.cov.q()), qm_transpose(f.transition.q())),
        f.process_noise.q(),
    )
}

/// When every exact intermediate of a predict step is representable.
pub open spec fn predict_ok(f: KalmanFilter, u: QVec3) -> bool {
    &&& qm_vec_ok(f.transition.q(), f.state.q())
    &&& qm_vec_ok(f.control.q(), u)
    &&& qv_add_ok(qm_vec(f.transition.q(), f.state.q()), qm_vec(f.control.q(), u))
    &&& qm_mul_ok(f.transition.q(), f.cov.q())
    &&& qm_mul_ok(qm_mul(f.transition.q(), f.cov.q()), qm_transpose(f.transition.q()))
    &&& qm_add_ok(
        qm_mul(qm_mul(f.transition.q(), f.cov.q()), qm_transpose(f.transition.q())),
        f.process_noise.q(),
    )
}

/// The innovation of a measurement: `m - Measurement*state`.
pub open spec fn innovation(f: KalmanFilter, m: QVec3) -> QVec3 {
    qv_sub(m, qm_vec(f.measurement.q(), f.state.q()))
}

/// The innovation covariance:
/// `Measurement*cov*Measurement^T + MeasurementNoise`.
pub open spec fn innovation_cov(f: KalmanFilter) -> QMat3 {
    qm_add(
        qm_mul(qm_mul(f.measurement.q(), f.cov.q()), qm_transpose(f.measurement.q())),
        f.measurement_noise.q(),
    )
}

/// The Kalman gain: `cov*Measurement^T*inverse(innovation_cov)`.
pub open spec fn kalman_gain(f: KalmanFilter) -> QMat3 {
    qm_mul(
        qm_mul(f.cov.q(), qm_transpose(f.measurement.q())),
        qm_inverse(innovation_cov(f)),
    )
}

/// The state after an update step: `state + gain*innovation`.
pub open spec fn update_state(f: KalmanFilter, m: QVec3) -> QVec3 {
    qv_add(f.state.q(), qm_vec(kalman_gain(f), innovation(f, m)))
}

/// The covariance after an update step: `(I - gain*Measurement)*cov`.
pub open spec fn update_cov(f: KalmanFilter) -> QMat3 {
    qm_mul(qm_sub(qm_identity(), qm_mul(kalman_gain(f), f.measurement.q())), f.cov.q())
}

/// The whole filter after a predict step with control input `u`.
pub open spec fn after_predict(f: KalmanFilter, u: QVec3) -> KalmanFilter {
    KalmanFilter {
        state: vec_of(predict_state(f, u)),
        cov: mat_of(predict_cov(f)),
        transition: f.transition,
        control: f.control,
        measurement: f.measurement,
        process_noise: f.process_noise,
        measurement_noise: f.measurement_noise,
    }
}

/// The whole filter after an update step with measurement `m`.
pub open spec fn after_update(f: KalmanFilter, m: QVec3) -> KalmanFilter {
    KalmanFilter {
        state: vec_of(update_state(f, m)),
        cov: mat_of(update_cov(f)),
        transition: f.transition,
        control: f.control,
        measurement: f.measurement,
        process_noise: f.process_noise,
        measurement_noise: f.measurement_noise,
    }
}

/// When an update step succeeds: the innovation covariance is invertible
/// (in particular not singular — see `qm_inverse_ok`) and every exact
/// intermediate is representable.
pub open spec fn update_ok(f: KalmanFilter, m: QVec3) -> bool {
    &&& qm_vec_ok(f.measurement.q(), f.state.q())
    &&& qv_sub_ok(m, qm_vec(f.measurement.q(), f.state.q()))
    &&& qm_mul_ok(f.measurement.q(), f.cov.q())
    &&& qm_mul_ok(qm_mul(f.measurement.q(), f.cov.q()), qm_transpose(f.measurement.q()))
    &&& qm_add_ok(
        qm_mul(qm_mul(f.measurement.q(), f.cov.q()), qm_transpose(f.measurement.q())),
        f.measurement_noise.q(),
    )
    &&& qm_inverse_ok(innovation_cov(f))
    &&& qm_mul_ok(f.cov.q(), qm_transpose(f.measurement.q()))
    &&& qm_mul_ok(
        qm_mul(f.cov.q(), qm_transpose(f.measurement.q())),
        qm_inverse(innovation_cov(f)),
    )
    &&& qm_vec_ok(kalman_gain(f), innovation(f, m))
    &&& qv_add_ok(f.state.q(), qm_vec(kalman_gain(f), innovation(f, m)))
    &&& qm_mul_ok(kalman_gain(f), f.measurement.q())
    &&& qm_sub_ok(qm_identity(), qm_mul(kalman_gain(f), f.measurement.q()))
    &&& qm_mul_ok(qm_sub(qm_identity(), qm_mul(kalman_gain(f), f.measurement.q())), f.cov.q())
}

impl KalmanFilter {
    /// All parts of the filter are well-formed.
    pub open spec fn wf(self) -> bool {
        &&& self.state.wf()
        &&& self.cov.wf()
        &&& self.transition.wf()
        &&& self.control.wf()
        &&& self.measurement.wf()
        &&& self.process_noise.wf()
        &&& self.measurement_noise.wf()
    }

    /// The fixed model matrices, which no step may change.
    pub open spec fn same_config(self, other: KalmanFilter) -> bool {
        &&& self.transition == other.transition
        &&& self.control == other.control
        &&& self.measurement == other.measurement
        &&& self.process_noise == other.process_noise
        &&& self.measurement_noise == other.measurement_noise
    }

    /// Builds a filter from its initial state, covariance and model matrices.
    pub fn new(
        state: Vec3,
        cov: Mat3,
        transition: Mat3,
        control: Mat3,
        measurement: Mat3,
        process_noise: Mat3,
        measurement_noise: Mat3,
    ) -> (r: KalmanFilter)
        ensures
            r == (KalmanFilter {
                state,
                cov,
                transition,
                control,
                measurement,
                process_noise,
                measurement_noise,
            }),
    {
        KalmanFilter { state, cov, transition, control, measurement, process_noise, measurement_noise }
    }

    /// Predict step: propagates state and covariance through the model,
    /// `state <- Transition*state + Control*u` and
    /// `cov <- Transition*cov*Transition^T + ProcessNoise`. Fails, leaving
    /// the filter unchanged, exactly when an exact intermediate is
    /// unrepresentable.
    pub fn predict(&mut self, control: Vec3) -> (r: Result<(), EstimationError>)
        requires
            old(self).wf(),
            control.wf(),
        ensures
            r is Ok <==> predict_ok(*old(self), control.q()),
            r is Ok ==> final(self).wf()
                && final(self).state.q() == predict_state(*old(self), control.q())
                && final(self).cov.q() == predict_cov(*old(self))
                && final(self).same_config(*old(self)),
            r is Err ==> *final(self) == *old(self),
            r matches Err(e) ==> e == EstimationError::NumericalError,
    {
        match predict_values(self, control) {
            Some((state, cov)) => {
                self.state = state;
                self.cov = cov;
                Ok(())
            }
            None => Err(EstimationError::NumericalError),
        }
    }

    /// Update step: folds a measurement into the estimate through the
    /// innovation, its covariance, and the Kalman gain;
    /// `state <- state + gain*innovation` and
    /// `cov <- (I - gain*Measurement)*cov`. Fails, leaving the filter
    /// unchanged, exactly when the innovation covariance is singular or an
    /// exact intermediate is unrepresentable.
    pub fn update(&mut self, measurement: Vec3) -> (r: Result<(), EstimationError>)
        requires
            old(self).wf(),
            measurement.wf(),
        ensures
            r is Ok <==> update_ok(*old(self), measurement.q()),
            r is Ok ==> final(self).wf()
                && final(self).state.q() == update_state(*old(self), measurement.q())
                && final(self).cov.q() == update_cov(*old(self))
                && final(self).same_config(*old(self)),
            r is Err ==> *final(self) == *old(self),
            r matches Err(e) ==> e == EstimationError::NumericalError,
    {
        match update_values(self, measurement) {
            Some((state, cov)) => {
                self.state = state;
                self.cov = cov;
                Ok(())
            }
            None => Err(EstimationError::NumericalError),
        }
    }
}

/// Pure prediction grows uncertainty: when the transition matrix is the
/// identity and every diagonal entry of the process noise is positive, a
/// predict step strictly increases every diagonal entry of the covariance,
/// whatever the control input (the covariance does not depend on it).
pub proof fn lemma_prediction_grows_uncertainty(f: KalmanFilter)
    requires
        f.wf(),
        f.transition.q() == qm_identity(),
        q_lt(q_int(0), f.process_noise.m00.q()),
        q_lt(q_int(0), f.process_noise.m11.q()),
        q_lt(q_int(0), f.process_noise.m22.q()),
    ensures
        q_lt(f.cov.m00.q(), predict_cov(f).m00),
        q_lt(f.cov.m11.q(), predict_cov(f).m11),
        q_lt(f.cov.m22.q(), predict_cov(f).m22),
{
    let p = f.cov.q();
    let t = f.transition.q();
    let tp = qm_mul(t, p);
    assert(qm_transpose(t) == qm_identity());
    lemma_identity_dot_row0(p.m00, p.m10, p.m20);
    lemma_dot_den_pos(q_int(1), q_int(0), q_int(0), p.m01, p.m11, p.m21);
    lemma_dot_den_pos(q_int(1), q_int(0), q_int(0), p.m02, p.m12, p.m22);
    lemma_identity_dot_row1(p.m01, p.m11, p.m21);
    lemma_dot_den_pos(q_int(0), q_int(1), q_int(0), p.m00, p.m10, p.m20);
    lemma_dot_den_pos(q_int(0), q_int(1), q_int(0), p.m02, p.m12, p.m22);
    lemma_identity_dot_row2(p.m02, p.m12, p.m22);
    lemma_dot_den_pos(q_int(0), q_int(0), q_int(1), p.m00, p.m10, p.m20);
    lemma_dot_den_pos(q_int(0), q_int(0), q_int(1), p.m01, p.m11, p.m21);
    let tpt = qm_mul(tp, qm_identity());
    lemma_identity_dot_col0(tp.m00, tp.m01, tp.m02);
    lemma_q_eq_trans(tpt.m00, tp.m00, p.m00);
    lemma_q_lt_add_pos(p.m00, tpt.m00, f.process_noise.m00.q());
    lemma_identity_dot_col1(tp.m10, tp.m11, tp.m12);
    lemma_q_eq_trans(tpt.m11, tp.m11, p.m11);
    lemma_q_lt_add_pos(p.m11, tpt.m11, f.process_noise.m11.q());
    lemma_identity_dot_col2(tp.m20, tp.m21, tp.m22);
    lemma_q_eq_trans(tpt.m22, tp.m22, p.m22);
    lemma_q_lt_add_pos(p.m22, tpt.m22, f.process_noise.m22.q());
}

/// Computes the predicted state and covariance without touching the filter.
fn predict_values(f: &KalmanFilter, control: Vec3) -> (r: Option<(Vec3, Mat3)>)
    requires
        f.wf(),
        control.wf(),
    ensures
        r is Some <==> predict_ok(*f, control.q()),
        r matches Some(v) ==> v.0.wf() && v.1.wf()
            && v.0.q() == predict_state(*f, control.q())
            && v.1.q() == predict_cov(*f),
{
    let ts = f.transition.mul_vec(f.state)?;
    let bu = f.control.mul_vec(control)?;
    let state = ts.add(bu)?;
    let tp = f.transition.mul(f.cov)?;
    let tpt = tp.mul(f.transition.transpose())?;
    let cov = tpt.add(f.process_noise)?;
    Some((state, cov))
}

/// Computes the updated state and covariance without touching the filter.
#[verifier::rlimit(100)]
fn update_values(f: &KalmanFilter, m: Vec3) -> (r: Option<(Vec3, Mat3)>)
    requires
        f.wf(),
        m.wf(),
    ensures
        r is Some <==> update_ok(*f, m.q()),
        r matches Some(v) ==> v.0.wf() && v.1.wf()
            && v.0.q() == update_state(*f, m.q())
            && v.1.q() == update_cov(*f),
{
    let hs = f.measurement.mul_vec(f.state)?;
    let innov = m.sub(hs)?;
    let hp = f.measurement.mul(f.cov)?;
    let hpht = hp.mul(f.measurement.transpose())?;
    let icov = hpht.add(f.measurement_noise)?;
    let icov_inv = icov.invert()?;
    let pht = f.cov.mul(f.measurement.transpose())?;
    let gain = pht.mul(icov_inv)?;
    let gi = gain.mul_vec(innov)?;
    let state = f.state.add(gi)?;
    let gh = gain.mul(f.measurement)?;
    let ikh = Mat3::identity().sub(gh)?;
    let cov = ikh.mul(f.cov)?;
    Some((state, cov))
}

} // verus!
