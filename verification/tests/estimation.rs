use mpu6050_rs::filter::{EstimationError, KalmanFilter};
use mpu6050_rs::frame::encode_frame;
use mpu6050_rs::mat3::{Mat3, Vec3};
use mpu6050_rs::pipeline::EstimationPipeline;
use mpu6050_rs::rat::Rat;
use mpu6050_rs::tilt::{tilt_compensation, AccelReading, AngleReading};

fn angle(sin: Rat, cos: Rat) -> AngleReading {
    AngleReading::Finite { sin, cos }
}

fn zero_angle() -> AngleReading {
    angle(Rat::from_int(0), Rat::from_int(1))
}

fn accel(v: Rat) -> AccelReading {
    AccelReading::Finite(v)
}

fn standard_filter() -> KalmanFilter {
    KalmanFilter::new(
        Vec3::zero(),
        Mat3::identity(),
        Mat3::identity(),
        Mat3::zero(),
        Mat3::identity(),
        Mat3::diagonal(Rat::new(1, 10)),
        Mat3::diagonal(Rat::new(1, 10)),
    )
}

#[test]
fn rational_arithmetic_is_exact_and_reduced() {
    let a = Rat::new(1, 3);
    let b = Rat::new(1, 6);
    let s = a.add(b).unwrap();
    assert!(s.eq_value(Rat::new(1, 2)));
    assert_eq!(s.n, 1);
    assert_eq!(s.d, 2);
    let p = Rat::new(2, 3).mul(Rat::new(9, 4)).unwrap();
    assert!(p.eq_value(Rat::new(3, 2)));
    let q = Rat::new(7, 2).div(Rat::new(-7, 4)).unwrap();
    assert!(q.eq_value(Rat::from_int(-2)));
    assert!(q.d >= 1);
    let d = Rat::new(1, 4).sub(Rat::new(3, 4)).unwrap();
    assert!(d.eq_value(Rat::new(-1, 2)));
}

#[test]
fn rational_arithmetic_reports_its_limits() {
    let big = Rat::new(i64::MAX, 1);
    assert_eq!(big.add(Rat::from_int(1)), None);
    assert_eq!(big.mul(Rat::from_int(2)), None);
    assert_eq!(Rat::from_int(1).div(Rat::from_int(0)), None);
    assert_eq!(Rat::new(i64::MIN, 1).neg(), None);
    // A sum that only fits after reduction is still accepted.
    let h = Rat::new(i64::MAX - 1, 2);
    let s = h.add(h).unwrap();
    assert!(s.eq_value(Rat::new(i64::MAX - 1, 1)));
}

#[test]
fn value_equality_ignores_representation() {
    assert!(Rat::new(2, 4).eq_value(Rat::new(1, 2)));
    assert!(!Rat::new(2, 4).eq_value(Rat::new(3, 4)));
    assert!(Rat::new(-1, 2).lt_value(Rat::new(1, 3)));
    assert!(Rat::from_int(0).is_zero());
}

#[test]
fn tilt_identity_returns_input() {
    let z = zero_angle();
    let r = tilt_compensation(
        &z, &z, &z,
        &accel(Rat::new(3, 2)),
        &accel(Rat::from_int(-5)),
        &accel(Rat::new(7, 4)),
    )
    .unwrap();
    assert!(r.x.eq_value(Rat::new(3, 2)));
    assert!(r.y.eq_value(Rat::from_int(-5)));
    assert!(r.z.eq_value(Rat::new(7, 4)));
}

#[test]
fn tilt_rejects_each_non_finite_input() {
    let z = zero_angle();
    let a = accel(Rat::from_int(1));
    for broken in 0..6 {
        let angles = [
            if broken == 0 { AngleReading::NonFinite } else { z },
            if broken == 1 { AngleReading::NonFinite } else { z },
            if broken == 2 { AngleReading::NonFinite } else { z },
        ];
        let accs = [
            if broken == 3 { AccelReading::NonFinite } else { a },
            if broken == 4 { AccelReading::NonFinite } else { a },
            if broken == 5 { AccelReading::NonFinite } else { a },
        ];
        let r = tilt_compensation(
            &angles[0], &angles[1], &angles[2], &accs[0], &accs[1], &accs[2],
        );
        assert_eq!(r, Err(EstimationError::InvalidInputError));
    }
}

#[test]
fn tilt_composes_rotations_in_fixed_order() {
    // Two nonzero angles with exact unit sine/cosine pairs. The first angle
    // feeds the Y-axis rotation and the third the Z-axis rotation.
    let ax = angle(Rat::new(3, 5), Rat::new(4, 5));
    let ay = zero_angle();
    let az = angle(Rat::new(5, 13), Rat::new(12, 13));
    let acc = (Rat::from_int(2), Rat::from_int(-3), Rat::from_int(6));
    let got = tilt_compensation(
        &ax, &ay, &az,
        &accel(acc.0), &accel(acc.1), &accel(acc.2),
    )
    .unwrap();

    let zero = Rat::from_int(0);
    let one = Rat::from_int(1);
    let rot_x = Mat3::identity();
    let rot_y = Mat3::new(
        Rat::new(4, 5), zero, Rat::new(3, 5),
        zero, one, zero,
        Rat::new(-3, 5), zero, Rat::new(4, 5),
    );
    let rot_z = Mat3::new(
        Rat::new(12, 13), Rat::new(-5, 13), zero,
        Rat::new(5, 13), Rat::new(12, 13), zero,
        zero, zero, one,
    );
    let acc_v = Vec3::new(acc.0, acc.1, acc.2);

    // Reference: invert the composed product Rz * Ry * Rx.
    let composed = rot_z.mul(rot_y).unwrap().mul(rot_x).unwrap();
    let want = composed.invert().unwrap().mul_vec(acc_v).unwrap();
    assert!(got.x.eq_value(want.x));
    assert!(got.y.eq_value(want.y));
    assert!(got.z.eq_value(want.z));

    // Inverting each elemental rotation before combining, in the same
    // order, is a different map.
    let wrong = rot_z
        .invert()
        .unwrap()
        .mul(rot_y.invert().unwrap())
        .unwrap()
        .mul(rot_x.invert().unwrap())
        .unwrap()
        .mul_vec(acc_v)
        .unwrap();
    assert!(
        !got.x.eq_value(wrong.x) || !got.y.eq_value(wrong.y) || !got.z.eq_value(wrong.z)
    );
}

#[test]
fn covariance_grows_under_pure_prediction() {
    let mut f = standard_filter();
    let mut last = (f.cov.m00, f.cov.m11, f.cov.m22);
    for step in 1..=10i64 {
        f.predict(Vec3::zero()).unwrap();
        assert!(last.0.lt_value(f.cov.m00));
        assert!(last.1.lt_value(f.cov.m11));
        assert!(last.2.lt_value(f.cov.m22));
        assert!(f.cov.m00.eq_value(Rat::new(10 + step, 10)));
        last = (f.cov.m00, f.cov.m11, f.cov.m22);
    }
    assert!(f.cov.m00.eq_value(Rat::from_int(2)));
}

#[test]
fn concrete_filter_step_matches_expected_values() {
    let mut f = standard_filter();
    f.predict(Vec3::zero()).unwrap();
    // Predicted covariance: 1.1 * identity.
    assert!(f.cov.m00.eq_value(Rat::new(11, 10)));
    assert!(f.cov.m11.eq_value(Rat::new(11, 10)));
    assert!(f.cov.m22.eq_value(Rat::new(11, 10)));
    assert!(f.cov.m01.is_zero());
    assert!(f.state.x.is_zero());

    f.update(Vec3::new(Rat::from_int(1), Rat::from_int(0), Rat::from_int(0)))
        .unwrap();
    // Gain 11/12 on the diagonal; state (11/12, 0, 0); covariance
    // (1.1/12) * identity = 11/120 * identity.
    assert!(f.state.x.eq_value(Rat::new(11, 12)));
    assert!(f.state.y.is_zero());
    assert!(f.state.z.is_zero());
    assert!(f.cov.m00.eq_value(Rat::new(11, 120)));
    assert!(f.cov.m11.eq_value(Rat::new(11, 120)));
    assert!(f.cov.m22.eq_value(Rat::new(11, 120)));
    assert!(f.cov.m10.is_zero());
}

#[test]
fn singular_innovation_covariance_is_reported_and_harmless() {
    let mut f = KalmanFilter::new(
        Vec3::zero(),
        Mat3::zero(),
        Mat3::identity(),
        Mat3::zero(),
        Mat3::identity(),
        Mat3::zero(),
        Mat3::zero(),
    );
    f.predict(Vec3::zero()).unwrap();
    let before = f;
    let r = f.update(Vec3::new(Rat::from_int(1), Rat::from_int(2), Rat::from_int(3)));
    assert_eq!(r, Err(EstimationError::NumericalError));
    assert_eq!(f, before);
}

#[test]
fn update_without_predict_is_legal() {
    let mut f = standard_filter();
    let r = f.update(Vec3::new(Rat::from_int(1), Rat::from_int(0), Rat::from_int(0)));
    assert_eq!(r, Ok(()));
    // Innovation covariance 1.1; gain 10/11.
    assert!(f.state.x.eq_value(Rat::new(10, 11)));
}

#[test]
fn pipeline_processes_samples_and_keeps_running() {
    let mut p = EstimationPipeline::standard();
    let z = zero_angle();
    let out = p
        .process_sample(
            &z, &z, &z,
            &accel(Rat::from_int(1)),
            &accel(Rat::from_int(0)),
            &accel(Rat::from_int(0)),
        )
        .unwrap();
    assert!(out.filtered.x.eq_value(Rat::new(11, 12)));
    assert!(out.filtered.y.is_zero());
    let comp = out.compensated.unwrap();
    assert!(comp.x.eq_value(Rat::from_int(1)));
    assert!(comp.y.is_zero());
    assert!(comp.z.is_zero());

    // Further samples keep being accepted.
    for _ in 0..20 {
        let out = p
            .process_sample(
                &z, &z, &z,
                &accel(Rat::from_int(1)),
                &accel(Rat::from_int(0)),
                &accel(Rat::from_int(0)),
            )
            .unwrap();
        assert!(out.compensated.is_some());
    }
    // The estimate approaches the constant measurement from below.
    assert!(p.filter.state.x.lt_value(Rat::from_int(1)));
    assert!(Rat::new(9, 10).lt_value(p.filter.state.x));
}

#[test]
fn pipeline_rejects_non_finite_samples_untouched() {
    let mut p = EstimationPipeline::standard();
    let before = p;
    let z = zero_angle();
    let r = p.process_sample(
        &z, &AngleReading::NonFinite, &z,
        &accel(Rat::from_int(1)),
        &accel(Rat::from_int(0)),
        &accel(Rat::from_int(0)),
    );
    assert_eq!(r, Err(EstimationError::InvalidInputError));
    assert_eq!(p, before);
}

#[test]
fn pipeline_keeps_predicted_estimate_when_update_fails() {
    let mut p = EstimationPipeline::standard();
    p.filter.cov = Mat3::zero();
    p.filter.process_noise = Mat3::zero();
    p.filter.measurement_noise = Mat3::zero();
    let z = zero_angle();
    let out = p
        .process_sample(
            &z, &z, &z,
            &accel(Rat::from_int(5)),
            &accel(Rat::from_int(0)),
            &accel(Rat::from_int(0)),
        )
        .unwrap();
    // The update is skipped: the predicted (unchanged) state stands.
    assert!(out.filtered.x.is_zero());
    assert!(p.filter.state.x.is_zero());
}

#[test]
fn frame_layout_is_fixed_little_endian() {
    let a: u64 = 1;
    let b: u64 = 0x0102_0304_0506_0708;
    let c: u64 = u64::MAX;
    let f = encode_frame(a, b, c);
    assert_eq!(f.len(), 48);
    assert_eq!(&f[0..24], &[0u8; 24]);
    assert_eq!(&f[24..32], &a.to_le_bytes());
    assert_eq!(&f[32..40], &b.to_le_bytes());
    assert_eq!(&f[40..48], &c.to_le_bytes());
    assert_eq!(f[24], 1);
    assert_eq!(f[31], 0);
    assert_eq!(f[32], 8);
    assert_eq!(f[39], 1);
}
