use self_balancing_robot2::imu::itg3200::{GyroSampleSum, ITG3200};
use self_balancing_robot2::imu::itg3200_registers::ITG3200_ADDR;

#[test]
fn new_gyro_has_no_correction() {
    let g = ITG3200::new();
    assert_eq!(g.address, ITG3200_ADDR);
    assert_eq!(g.get_offsets(), (0, 0, 0));
    assert_eq!(g.calibrate(5, -7, 100), (5, -7, 100));
    let h = ITG3200::new_with_address(0x69);
    assert_eq!(h.address, 0x69);
}

#[test]
fn offsets_and_polarity_are_applied() {
    let mut g = ITG3200::new();
    g.set_offsets(10, -20, 30);
    assert_eq!(g.get_offsets(), (10, -20, 30));
    assert_eq!(g.calibrate(15, 0, 30), (5, 20, 0));
    g.set_rev_polarity(true, false, true);
    assert_eq!(g.calibrate(15, 0, 40), (-5, 20, -10));
}

#[test]
fn zero_calibration_uses_truncated_mean() {
    let mut sums = GyroSampleSum::new();
    sums.add(10, -10, 3);
    sums.add(11, -11, 4);
    sums.add(12, -13, 4);
    assert_eq!(sums.count(), 3);
    // 33/3, -34/3 rounded toward zero, 11/3 rounded toward zero
    assert_eq!(sums.mean(), (11, -11, 3));
    let mut g = ITG3200::new();
    g.set_rev_polarity(true, true, true);
    g.apply_zero_calibration(&sums);
    assert_eq!(g.get_offsets(), (11, -11, 3));
    assert!(g.x_rev && g.y_rev && g.z_rev);
}

#[test]
fn constant_samples_calibrate_to_zero() {
    let mut sums = GyroSampleSum::new();
    for _ in 0..128 {
        sums.add(-42, 7, 0);
    }
    let mut g = ITG3200::new();
    g.apply_zero_calibration(&sums);
    assert_eq!(g.calibrate(-42, 7, 0), (0, 0, 0));
}

#[test]
fn extreme_samples_do_not_overflow() {
    let mut sums = GyroSampleSum::new();
    for _ in 0..u16::MAX {
        sums.add(i16::MIN, i16::MAX, i16::MIN);
    }
    assert_eq!(sums.count(), u16::MAX);
    assert_eq!(sums.mean(), (i16::MIN, i16::MAX, i16::MIN));
}
