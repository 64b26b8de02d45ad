use self_balancing_robot2::imu::freesix_imu::split_thousandths;
use self_balancing_robot2::imu::{InitStep, SensorMonitor, SensorStatus};

#[test]
fn default_status_is_disconnected() {
    assert_eq!(SensorStatus::default(), SensorStatus::Disconnected);
    let m = SensorMonitor::new();
    assert_eq!(m.status, SensorStatus::Disconnected);
    assert_eq!(m.consecutive_errors, 0);
    assert_eq!(m.disconnect_count, 0);
}

#[test]
fn status_labels() {
    assert_eq!(SensorStatus::Normal.label(), "Ok");
    assert_eq!(SensorStatus::Disconnected.label(), "Disconnected");
    assert_eq!(SensorStatus::Faulty.label(), "Faulty");
    assert_eq!(SensorStatus::NeedsCalibration.label(), "NeedsCalibration");
    assert_eq!(SensorStatus::Calibrating.label(), "Calibrating");
    assert_eq!(SensorStatus::ExcessiveDrift.label(), "ExcessiveDrift");
}

#[test]
fn third_failed_check_disconnects() {
    let mut m = SensorMonitor::new();
    m.status = SensorStatus::Normal;
    assert!(!m.detect_disconnection(false, true));
    assert!(!m.detect_disconnection(true, false));
    assert_eq!(m.status, SensorStatus::Normal);
    assert!(m.detect_disconnection(false, false));
    assert_eq!(m.status, SensorStatus::Disconnected);
    assert_eq!(m.disconnect_count, 1);
    assert!(m.detect_disconnection(false, false));
    assert_eq!(m.disconnect_count, 1);
    assert_eq!(m.consecutive_errors, 4);
    assert_eq!(m.readings_since_ok, 4);
}

#[test]
fn reconnection_needs_calibration() {
    let mut m = SensorMonitor::new();
    m.consecutive_errors = 5;
    m.readings_since_ok = 9;
    assert!(!m.detect_disconnection(true, true));
    assert_eq!(m.status, SensorStatus::NeedsCalibration);
    assert_eq!(m.consecutive_errors, 0);
    assert_eq!(m.readings_since_ok, 0);
    assert!(!m.drift_verdict(false));
    assert_eq!(m.status, SensorStatus::NeedsCalibration);
}

#[test]
fn read_failures() {
    let mut m = SensorMonitor::new();
    m.status = SensorStatus::Normal;
    m.record_partial_failure();
    assert_eq!(m.status, SensorStatus::Faulty);
    assert_eq!(m.consecutive_errors, 1);
    m.record_total_failure();
    assert_eq!(m.status, SensorStatus::Faulty);
    m.record_total_failure();
    assert_eq!(m.status, SensorStatus::Disconnected);
    assert_eq!(m.disconnect_count, 0);
    for _ in 0..6 {
        m.record_total_failure();
    }
    assert_eq!(m.readings_since_ok, 9);
    assert_eq!(m.disconnect_count, 0);
    m.record_total_failure();
    assert_eq!(m.readings_since_ok, 10);
    assert_eq!(m.disconnect_count, 1);
}

#[test]
fn drift_checks() {
    let mut m = SensorMonitor::new();
    m.record_faulty_reading();
    assert_eq!(m.status, SensorStatus::Faulty);
    assert_eq!(m.faulty_reading_count, 1);
    assert!(m.drift_verdict(true));
    assert_eq!(m.status, SensorStatus::ExcessiveDrift);
    assert!(!m.drift_verdict(false));
    assert_eq!(m.status, SensorStatus::Normal);
    m.status = SensorStatus::Calibrating;
    assert!(!m.drift_verdict(false));
    assert_eq!(m.status, SensorStatus::Calibrating);
}

#[test]
fn thousandths_split() {
    assert_eq!(split_thousandths(1234, 1234), (1, 234));
    assert_eq!(split_thousandths(-1234, 1234), (-1, 234));
    assert_eq!(split_thousandths(-999, 999), (0, 999));
    assert_eq!(split_thousandths(5, 5), (0, 5));
}

#[test]
fn gyro_init_gives_up_after_three_attempts() {
    let mut m = SensorMonitor::new();
    m.status = SensorStatus::NeedsCalibration;
    assert_eq!(m.gyro_init_outcome(0, false), InitStep::Retry);
    assert_eq!(m.gyro_init_outcome(1, false), InitStep::Retry);
    assert_eq!(m.status, SensorStatus::NeedsCalibration);
    assert_eq!(m.gyro_init_outcome(2, false), InitStep::GiveUp);
    assert_eq!(m.status, SensorStatus::Disconnected);
    let mut n = SensorMonitor::new();
    n.status = SensorStatus::Faulty;
    assert_eq!(n.gyro_init_outcome(2, true), InitStep::Done);
    assert_eq!(n.status, SensorStatus::Faulty);
}

#[test]
fn calibration_status_transitions() {
    let mut m = SensorMonitor::new();
    m.record_calibration_failure();
    assert_eq!(m.status, SensorStatus::NeedsCalibration);
    m.status = SensorStatus::Normal;
    let previous = m.begin_calibration();
    assert_eq!(previous, SensorStatus::Normal);
    assert_eq!(m.status, SensorStatus::Calibrating);
    m.end_calibration(previous);
    assert_eq!(m.status, SensorStatus::Normal);
    let previous = m.begin_calibration();
    assert!(m.drift_verdict(true));
    m.end_calibration(previous);
    assert_eq!(m.status, SensorStatus::ExcessiveDrift);
}
