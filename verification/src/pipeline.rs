//! Per-sample orchestration of the estimation core.
//!
//! For each incoming sample the pipeline rejects non-finite inputs, runs
//! `predict` then `update` on its filter with the raw acceleration as the
//! measurement and a zero control input, and independently runs the tilt
//! compensator; it emits a filtered and a compensated acceleration estimate.
//! A failed update keeps the predicted state as the sample's estimate; a
//! failed compensation leaves that output empty for the tick.

use vstd::prelude::*;
use crate::rat::{q_int, Q, Rat};
use crate::mat3::{Mat3, QMat3, QVec3, Vec3, qm_identity, qm_zero, qv_zero};
use crate::filter::{
    after_predict, after_update, EstimationError, KalmanFilter, predict_ok, update_ok,
};
use crate::tilt::{
    AccelReading, AngleReading, compensated, tilt_compensation, tilt_inputs_finite, tilt_ok,
};

verus! {

/// The two outputs computed for one accepted sample.
#[derive(Clone, Copy, Debug, PartialEq, Eq, Structural)]
pub struct SampleEstimate {
    /// The Kalman-filtered acceleration estimate. Computed for every
    /// accepted sample even though the current wire format does not carry
    /// it: an extension point deliberately kept.
    pub filtered: Vec3,
    /// The tilt-compensated acceleration, or nothing when the composed
    /// rotation could not be inverted for this sample.
    pub compensated: Option<Vec3>,
}

/// The raw acceleration components of a sample as a rational vector.
pub open spec fn sample_measurement(
    acc_x: AccelReading,
    acc_y: AccelReading,
    acc_z: AccelReading,
) -> QVec3 {
    QVec3 { x: acc_x.val_q(), y: acc_y.val_q(), z: acc_z.val_q() }
}

/// The filter after one accepted sample: a predict step with zero control,
/// then an update step with the measurement where that update succeeds.
pub open spec fn filter_after_sample(f: KalmanFilter, m: QVec3) -> KalmanFilter {
    if update_ok(after_predict(f, qv_zero()), m) {
        after_update(after_predict(f, qv_zero()), m)
    } else {
        after_predict(f, qv_zero())
    }
}

/// The process-noise and measurement-noise matrix of the default
/// configuration: one tenth on the diagonal.
pub open spec fn qm_tenth_diagonal() -> QMat3 {
    QMat3 {
        m00: (Q { n: 1, d: 10 }),
        m01: q_int(0),
        m02: q_int(0),
        m10: q_int(0),
        m11: (Q { n: 1, d: 10 }),
        m12: q_int(0),
        m20: q_int(0),
        m21: q_int(0),
        m22: (Q { n: 1, d: 10 }),
    }
}

/// The per-sample estimation pipeline: a Kalman filter fed sample by sample.
#[derive(Clone, Copy, Debug, PartialEq, Eq, Structural)]
pub struct EstimationPipeline {
    pub filter: KalmanFilter,
}

impl EstimationPipeline {
    /// The default configuration: zero state, identity covariance, identity
    /// transition and measurement matrices, zero control matrix, and one
    /// tenth of the identity for both noise covariances.
    pub fn standard() -> (r: EstimationPipeline)
        ensures
            r.filter.wf(),
            r.filter.state.q() == qv_zero(),
            r.filter.cov.q() == qm_identity(),
            r.filter.transition.q() == qm_identity(),
            r.filter.control.q() == qm_zero(),
            r.filter.measurement.q() == qm_identity(),
            r.filter.process_noise.q() == qm_tenth_diagonal(),
            r.filter.measurement_noise.q() == qm_tenth_diagonal(),
    {
        let tenth = Rat::new(1, 10);
        EstimationPipeline {
            filter: KalmanFilter::new(
                Vec3::zero(),
                Mat3::identity(),
                Mat3::identity(),
                Mat3::zero(),
                Mat3::identity(),
                Mat3::diagonal(tenth),
                Mat3::diagonal(tenth),
            ),
        }
    }

    /// Processes one sample: rejects it whole if any of the six inputs is
    /// non-finite; otherwise predicts with zero control, updates with the
    /// raw acceleration (keeping the predicted state as the estimate when
    /// the update fails numerically), and compensates tilt independently.
    pub fn process_sample(
        &mut self,
        angle_x: &AngleReading,
        angle_y: &AngleReading,
        angle_z: &AngleReading,
        acc_x: &AccelReading,
        acc_y: &AccelReading,
        acc_z: &AccelReading,
    ) -> (r: Result<SampleEstimate, EstimationError>)
        requires
            old(self).filter.wf(),
            angle_x.wf(),
            angle_y.wf(),
            angle_z.wf(),
            acc_x.wf(),
            acc_y.wf(),
            acc_z.wf(),
        ensures
            r == Err::<SampleEstimate, EstimationError>(EstimationError::InvalidInputError)
                <==> !tilt_inputs_finite(*angle_x, *angle_y, *angle_z, *acc_x, *acc_y, *acc_z),
            r is Err <==> !tilt_inputs_finite(*angle_x, *angle_y, *angle_z, *acc_x, *acc_y, *acc_z)
                || !predict_ok(old(self).filter, qv_zero()),
            r is Err ==> *final(self) == *old(self),
            r is Ok ==> final(self).filter.wf()
                && final(self).filter == filter_after_sample(
                    old(self).filter,
                    sample_measurement(*acc_x, *acc_y, *acc_z),
                ),
            r matches Ok(v) ==> v.filtered == filter_after_sample(
                old(self).filter,
                sample_measurement(*acc_x, *acc_y, *acc_z),
            ).state,
            r matches Ok(v) ==> (v.compensated is Some <==> tilt_ok(
                angle_y.sin_q(), angle_y.cos_q(),
                angle_x.sin_q(), angle_x.cos_q(),
                angle_z.sin_q(), angle_z.cos_q(),
                sample_measurement(*acc_x, *acc_y, *acc_z),
            )),
            r matches Ok(v) ==> (v.compensated matches Some(w) ==> w.wf() && w.q() == compensated(
                *angle_x, *angle_y, *angle_z,
                sample_measurement(*acc_x, *acc_y, *acc_z),
            )),
    {
        if !(angle_x.finite() && angle_y.finite() && angle_z.finite()
            && acc_x.finite() && acc_y.finite() && acc_z.finite()) {
            return Err(EstimationError::InvalidInputError);
        }
        let ax = match *acc_x {
            AccelReading::Finite(v) => v,
            AccelReading::NonFinite => return Err(EstimationError::InvalidInputError),
        };
        let ay = match *acc_y {
            AccelReading::Finite(v) => v,
            AccelReading::NonFinite => return Err(EstimationError::InvalidInputError),
        };
        let az = match *acc_z {
            AccelReading::Finite(v) => v,
            AccelReading::NonFinite => return Err(EstimationError::InvalidInputError),
        };
        let measurement = Vec3::new(ax, ay, az);
        match self.filter.predict(Vec3::zero()) {
            Ok(()) => {}
            Err(_) => return Err(EstimationError::NumericalError),
        }
        proof {
            assert(self.filter == after_predict(old(self).filter, qv_zero()));
        }
        // A failed update keeps the predicted state as this sample's
        // estimate; the filter goes on from it.
        match self.filter.update(measurement) {
            Ok(()) => {}
            Err(_) => {}
        }
        let filtered = self.filter.state;
        let compensated_acc = match tilt_compensation(
            angle_x, angle_y, angle_z, acc_x, acc_y, acc_z,
        ) {
            Ok(v) => Some(v),
            Err(_) => None,
        };
        Ok(SampleEstimate { filtered, compensated: compensated_acc })
    }
}

} // verus!
