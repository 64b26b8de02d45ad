//! Health tracking of the combined accelerometer/gyroscope unit: the sensor
//! status, the failure counters and how each connection check, read outcome
//! and drift check moves them. Also the fixed-point split used to print readings.

use vstd::prelude::*;
use crate::imu::itg3200::trunc_div;

verus! {

/// Status of the IMU sensor.
#[derive(Debug, Clone, Copy, PartialEq, Eq, Structural)]
pub enum SensorStatus {
    /// Functioning properly
    Normal,
    /// Recently disconnected or lost connection
    Disconnected,
    /// Connected but producing faulty readings
    Faulty,
    /// Connected but requires calibration
    NeedsCalibration,
    /// Currently in calibration process
    Calibrating,
    /// Sensor readings show excessive drift
    ExcessiveDrift,
}

impl Default for SensorStatus {
    /// A sensor is taken as disconnected until a check says otherwise.
    fn default() -> (r: Self)
        ensures
            r == SensorStatus::Disconnected,
    {
        SensorStatus::Disconnected
    }
}

/// The name of each status, as it is printed.
pub open spec fn status_label(s: SensorStatus) -> Seq<char> {
    match s {
        SensorStatus::Normal => "Ok"@,
        SensorStatus::Disconnected => "Disconnected"@,
        SensorStatus::Faulty => "Faulty"@,
        SensorStatus::NeedsCalibration => "NeedsCalibration"@,
        SensorStatus::Calibrating => "Calibrating"@,
        SensorStatus::ExcessiveDrift => "ExcessiveDrift"@,
    }
}

impl SensorStatus {
    /// The name of the status, as it is printed.
    pub fn label(&self) -> (r: &'static str)
        ensures
            r@ == status_label(*self),
    {
        match self {
            SensorStatus::Normal => "Ok",
            SensorStatus::Disconnected => "Disconnected",
            SensorStatus::Faulty => "Faulty",
            SensorStatus::NeedsCalibration => "NeedsCalibration",
            SensorStatus::Calibrating => "Calibrating",
            SensorStatus::ExcessiveDrift => "ExcessiveDrift",
        }
    }
}

/// Consecutive failures after which the sensor counts as disconnected.
pub const DISCONNECT_AFTER_ERRORS: u16 = 3;

/// Readings without success after which a failure of both sensors counts as
/// another disconnection.
pub const DISCONNECT_COUNT_AFTER_READINGS: u16 = 10;

/// Attempts made to initialise the gyroscope before giving up.
pub const GYRO_INIT_ATTEMPTS: u32 = 3;

/// Samples averaged by the zero-rate calibration made during initialisation.
pub const INIT_CALIBRATION_SAMPLES: u16 = 128;

/// What to do after an attempt to initialise the gyroscope.
#[derive(Debug, Clone, Copy, PartialEq, Eq, Structural)]
pub enum InitStep {
    /// The gyroscope answered: initialisation goes on
    Done,
    /// The attempt failed and another one is made after a pause
    Retry,
    /// Every attempt failed: initialisation fails
    GiveUp,
}

/// What follows attempt number `attempt` to initialise the gyroscope.
pub open spec fn spec_init_step(attempt: u32, ok: bool) -> InitStep {
    if ok {
        InitStep::Done
    } else if attempt + 1 < GYRO_INIT_ATTEMPTS {
        InitStep::Retry
    } else {
        InitStep::GiveUp
    }
}

/// Status and failure counters of the IMU.
#[derive(Debug, Clone, Copy, PartialEq, Eq, Structural)]
pub struct SensorMonitor {
    /// Status of the IMU sensor
    pub status: SensorStatus,
    /// Number of consecutive read failures
    pub consecutive_errors: u16,
    /// Number of readings since last successful read
    pub readings_since_ok: u16,
    /// Number of times the sensor was detected as disconnected
    pub disconnect_count: u16,
    /// Number of readings that were detected as faulty
    pub faulty_reading_count: u16,
}

/// The monitor after a connection check in which `connected` tells whether
/// both sensors answered, and whether the sensor is reported disconnected.
pub open spec fn spec_connection_check(m: SensorMonitor, connected: bool) -> (SensorMonitor, bool) {
    if !connected {
        let errors = (m.consecutive_errors + 1) as u16;
        let since = (m.readings_since_ok + 1) as u16;
        if errors >= DISCONNECT_AFTER_ERRORS {
            let count = if m.status != SensorStatus::Disconnected {
                (m.disconnect_count + 1) as u16
            } else {
                m.disconnect_count
            };
            (
                SensorMonitor {
                    status: SensorStatus::Disconnected,
                    consecutive_errors: errors,
                    readings_since_ok: since,
                    disconnect_count: count,
                    ..m
                },
                true,
            )
        } else {
            (SensorMonitor { consecutive_errors: errors, readings_since_ok: since, ..m }, false)
        }
    } else {
        let status = if m.status == SensorStatus::Disconnected {
            SensorStatus::NeedsCalibration
        } else {
            m.status
        };
        (SensorMonitor { status, consecutive_errors: 0, readings_since_ok: 0, ..m }, false)
    }
}

/// No counter overflows during a connection check.
pub open spec fn connection_check_fits(m: SensorMonitor, connected: bool) -> bool {
    !connected ==> {
        &&& m.consecutive_errors < u16::MAX
        &&& m.readings_since_ok < u16::MAX
        &&& (m.consecutive_errors + 1 >= DISCONNECT_AFTER_ERRORS && m.status
            != SensorStatus::Disconnected) ==> m.disconnect_count < u16::MAX
    }
}

/// The monitor after a read in which only one of the two sensors failed.
pub open spec fn spec_partial_failure(m: SensorMonitor) -> SensorMonitor {
    SensorMonitor {
        status: SensorStatus::Faulty,
        consecutive_errors: (m.consecutive_errors + 1) as u16,
        readings_since_ok: (m.readings_since_ok + 1) as u16,
        ..m
    }
}

/// The monitor after a read in which both sensors failed.
pub open spec fn spec_total_failure(m: SensorMonitor) -> SensorMonitor {
    let errors = (m.consecutive_errors + 1) as u16;
    let since = (m.readings_since_ok + 1) as u16;
    if errors >= DISCONNECT_AFTER_ERRORS {
        SensorMonitor {
            status: SensorStatus::Disconnected,
            consecutive_errors: errors,
            readings_since_ok: since,
            disconnect_count: if since >= DISCONNECT_COUNT_AFTER_READINGS {
                (m.disconnect_count + 1) as u16
            } else {
                m.disconnect_count
            },
            ..m
        }
    } else {
        SensorMonitor {
            status: SensorStatus::Faulty,
            consecutive_errors: errors,
            readings_since_ok: since,
            ..m
        }
    }
}

/// The monitor after a drift check that found no gravity fault, where
/// `drifting` tells whether a change rate was excessive, and the check's verdict.
pub open spec fn spec_drift_verdict(m: SensorMonitor, drifting: bool) -> (SensorMonitor, bool) {
    if drifting {
        (SensorMonitor { status: SensorStatus::ExcessiveDrift, ..m }, true)
    } else if m.status != SensorStatus::Calibrating && m.status != SensorStatus::NeedsCalibration {
        (SensorMonitor { status: SensorStatus::Normal, ..m }, false)
    } else {
        (m, false)
    }
}

impl SensorMonitor {
    /// A monitor for a sensor not yet checked: disconnected, all counters zero.
    pub fn new() -> (r: Self)
        ensures
            r == (SensorMonitor {
                status: SensorStatus::Disconnected,
                consecutive_errors: 0,
                readings_since_ok: 0,
                disconnect_count: 0,
                faulty_reading_count: 0,
            }),
    {
        SensorMonitor {
            status: SensorStatus::default(),
            consecutive_errors: 0,
            readings_since_ok: 0,
            disconnect_count: 0,
            faulty_reading_count: 0,
        }
    }

    /// Decides what follows attempt number `attempt` (counted from 0) to
    /// initialise the gyroscope, which succeeded when `ok` holds: done on
    /// success, another attempt while fewer than `GYRO_INIT_ATTEMPTS` were
    /// made, otherwise give up, and the sensor is then disconnected.
    pub fn gyro_init_outcome(&mut self, attempt: u32, ok: bool) -> (r: InitStep)
        requires
            attempt < GYRO_INIT_ATTEMPTS,
        ensures
            r == spec_init_step(attempt, ok),
            *final(self) == (if r == InitStep::GiveUp {
                SensorMonitor { status: SensorStatus::Disconnected, ..*old(self) }
            } else {
                *old(self)
            }),
    {
        if ok {
            InitStep::Done
        } else if attempt + 1 < GYRO_INIT_ATTEMPTS {
            InitStep::Retry
        } else {
            self.status = SensorStatus::Disconnected;
            InitStep::GiveUp
        }
    }

    /// Records that the zero-rate calibration made during initialisation
    /// failed: the sensor needs calibration.
    pub fn record_calibration_failure(&mut self)
        ensures
            *final(self) == (SensorMonitor { status: SensorStatus::NeedsCalibration, ..*old(self) }),
    {
        self.status = SensorStatus::NeedsCalibration;
    }

    /// Marks the sensor as being calibrated and returns the status it had, to
    /// be given back by `end_calibration`.
    pub fn begin_calibration(&mut self) -> (r: SensorStatus)
        ensures
            r == old(self).status,
            *final(self) == (SensorMonitor { status: SensorStatus::Calibrating, ..*old(self) }),
    {
        let previous = self.status;
        self.status = SensorStatus::Calibrating;
        previous
    }

    /// Ends a calibration begun when the status was `previous`: a sensor still
    /// marked as calibrating gets that status back; a status set by a check
    /// during the calibration stays.
    pub fn end_calibration(&mut self, previous: SensorStatus)
        ensures
            *final(self) == (if old(self).status == SensorStatus::Calibrating {
                SensorMonitor { status: previous, ..*old(self) }
            } else {
                *old(self)
            }),
    {
        if self.status == SensorStatus::Calibrating {
            self.status = previous;
        }
    }

    /// Records a connection check of both sensors and tells whether the sensor
    /// is now to be treated as disconnected. A failed check counts as another
    /// consecutive error; from the third one on the sensor is disconnected (a new
    /// disconnection is counted once, when the status first becomes
    /// `Disconnected`). A passing check clears the error counters, and a sensor
    /// that was disconnected then needs calibration.
    pub fn detect_disconnection(&mut self, accelerometer_connected: bool, gyroscope_connected: bool) -> (r: bool)
        requires
            connection_check_fits(*old(self), accelerometer_connected && gyroscope_connected),
        ensures
            (*final(self), r) == spec_connection_check(*old(self), accelerometer_connected && gyroscope_connected),
            r ==> final(self).status == SensorStatus::Disconnected,
            (accelerometer_connected && gyroscope_connected) ==> {
                &&& !r
                &&& final(self).consecutive_errors == 0
                &&& final(self).readings_since_ok == 0
                &&& final(self).status != SensorStatus::Disconnected
                &&& final(self).status == (if old(self).status == SensorStatus::Disconnected {
                    SensorStatus::NeedsCalibration
                } else {
                    old(self).status
                })
                &&& final(self).disconnect_count == old(self).disconnect_count
                &&& final(self).faulty_reading_count == old(self).faulty_reading_count
            },
            !(accelerometer_connected && gyroscope_connected) ==> (r <==> old(self).consecutive_errors + 1 >= DISCONNECT_AFTER_ERRORS),
    {
        if !accelerometer_connected || !gyroscope_connected {
            self.consecutive_errors = self.consecutive_errors + 1;
            self.readings_since_ok = self.readings_since_ok + 1;
            if self.consecutive_errors >= DISCONNECT_AFTER_ERRORS {
                if self.status != SensorStatus::Disconnected {
                    self.disconnect_count = self.disconnect_count + 1;
                }
                self.status = SensorStatus::Disconnected;
                return true;
            }
        } else {
            if self.status == SensorStatus::Disconnected {
                self.status = SensorStatus::NeedsCalibration;
            }
            self.consecutive_errors = 0;
            self.readings_since_ok = 0;
        }
        false
    }

    /// Records a read in which one sensor answered and the other failed: the
    /// reading is faulty.
    pub fn record_partial_failure(&mut self)
        requires
            old(self).consecutive_errors < u16::MAX,
            old(self).readings_since_ok < u16::MAX,
        ensures
            *final(self) == spec_partial_failure(*old(self)),
            final(self).status == SensorStatus::Faulty,
            final(self).consecutive_errors == old(self).consecutive_errors + 1,
            final(self).readings_since_ok == old(self).readings_since_ok + 1,
            final(self).disconnect_count == old(self).disconnect_count,
            final(self).faulty_reading_count == old(self).faulty_reading_count,
    {
        self.consecutive_errors = self.consecutive_errors + 1;
        self.readings_since_ok = self.readings_since_ok + 1;
        self.status = SensorStatus::Faulty;
    }

    /// Records a read in which both sensors failed: from the third consecutive
    /// error the sensor is disconnected, and once ten readings have passed
    /// without success each such failure counts as another disconnection.
    pub fn record_total_failure(&mut self)
        requires
            old(self).consecutive_errors < u16::MAX,
            old(self).readings_since_ok < u16::MAX,
            (old(self).consecutive_errors + 1 >= DISCONNECT_AFTER_ERRORS && old(self).readings_since_ok + 1
                >= DISCONNECT_COUNT_AFTER_READINGS) ==> old(self).disconnect_count < u16::MAX,
        ensures
            *final(self) == spec_total_failure(*old(self)),
            final(self).status == (if old(self).consecutive_errors + 1 >= 3 {
                SensorStatus::Disconnected
            } else {
                SensorStatus::Faulty
            }),
            final(self).consecutive_errors == old(self).consecutive_errors + 1,
            final(self).readings_since_ok == old(self).readings_since_ok + 1,
            final(self).disconnect_count == old(self).disconnect_count + (if old(self).consecutive_errors + 1 >= 3
                && old(self).readings_since_ok + 1 >= 10 { 1int } else { 0 }),
            final(self).faulty_reading_count == old(self).faulty_reading_count,
    {
        self.consecutive_errors = self.consecutive_errors + 1;
        self.readings_since_ok = self.readings_since_ok + 1;
        if self.consecutive_errors >= DISCONNECT_AFTER_ERRORS {
            self.status = SensorStatus::Disconnected;
            if self.readings_since_ok >= DISCONNECT_COUNT_AFTER_READINGS {
                self.disconnect_count = self.disconnect_count + 1;
            }
        } else {
            self.status = SensorStatus::Faulty;
        }
    }

    /// Records a reading whose acceleration magnitude is too far from 1g: the
    /// reading is faulty.
    pub fn record_faulty_reading(&mut self)
        requires
            old(self).faulty_reading_count < u16::MAX,
        ensures
            *final(self) == (SensorMonitor {
                status: SensorStatus::Faulty,
                faulty_reading_count: (old(self).faulty_reading_count + 1) as u16,
                ..*old(self)
            }),
    {
        self.faulty_reading_count = self.faulty_reading_count + 1;
        self.status = SensorStatus::Faulty;
    }

    /// Completes a drift check whose acceleration magnitude was plausible and
    /// tells whether the sensor is drifting: a too-high change rate means
    /// excessive drift, otherwise the status becomes `Normal` unless the sensor
    /// is calibrating or needs calibration.
    pub fn drift_verdict(&mut self, drifting: bool) -> (r: bool)
        ensures
            (*final(self), r) == spec_drift_verdict(*old(self), drifting),
            r == drifting,
            final(self).status == (if drifting {
                SensorStatus::ExcessiveDrift
            } else if old(self).status == SensorStatus::Calibrating || old(self).status
                == SensorStatus::NeedsCalibration {
                old(self).status
            } else {
                SensorStatus::Normal
            }),
            final(self).consecutive_errors == old(self).consecutive_errors,
            final(self).readings_since_ok == old(self).readings_since_ok,
            final(self).disconnect_count == old(self).disconnect_count,
            final(self).faulty_reading_count == old(self).faulty_reading_count,
    {
        if drifting {
            self.status = SensorStatus::ExcessiveDrift;
            return true;
        }
        if self.status != SensorStatus::Calibrating && self.status != SensorStatus::NeedsCalibration {
            self.status = SensorStatus::Normal;
        }
        false
    }
}

/// Splits a reading scaled by 1000 into the whole part and three decimals:
/// `truncated` is the scaled reading rounded toward zero and `magnitude` its
/// absolute value rounded down.
pub fn split_thousandths(truncated: i32, magnitude: u32) -> (r: (i32, u32))
    ensures
        r.0 == trunc_div(truncated as int, 1000),
        r.1 == magnitude % 1000,
{
    (truncated / 1000, magnitude % 1000)
}

/// A sensor found connected again after a disconnection needs calibration, and
/// a drift check without drift leaves it so: it is not reported healthy until
/// it has been calibrated.
pub proof fn lemma_reconnected_sensor_needs_calibration(m: SensorMonitor)
    requires
        m.status == SensorStatus::Disconnected,
    ensures
        spec_connection_check(m, true).0.status == SensorStatus::NeedsCalibration,
        spec_drift_verdict(spec_connection_check(m, true).0, false).0.status == SensorStatus::NeedsCalibration,
{
}

/// From a connected state with no pending error, the first two failed checks
/// do not report a disconnection, the third does, and that disconnection is
/// counted once.
pub proof fn lemma_third_failed_check_disconnects(m: SensorMonitor)
    requires
        m.consecutive_errors == 0,
        m.status != SensorStatus::Disconnected,
        m.readings_since_ok < u16::MAX - 3,
        m.disconnect_count < u16::MAX,
    ensures
        ({
            let (m1, r1) = spec_connection_check(m, false);
            let (m2, r2) = spec_connection_check(m1, false);
            let (m3, r3) = spec_connection_check(m2, false);
            &&& !r1 && !r2 && r3
            &&& m3.status == SensorStatus::Disconnected
            &&& m3.disconnect_count == m.disconnect_count + 1
            &&& m3.consecutive_errors == 3
        }),
{
}

/// Once disconnected, further failed checks keep reporting a disconnection
/// without counting it again.
pub proof fn lemma_disconnection_counted_once(m: SensorMonitor)
    requires
        m.status == SensorStatus::Disconnected,
        m.consecutive_errors >= DISCONNECT_AFTER_ERRORS,
        m.consecutive_errors < u16::MAX,
        m.readings_since_ok < u16::MAX,
    ensures
        spec_connection_check(m, false).1,
        spec_connection_check(m, false).0.disconnect_count == m.disconnect_count,
{
}

/// A gyroscope that never answers is tried exactly `GYRO_INIT_ATTEMPTS`
/// times: every attempt but the last is retried, the last gives up.
pub proof fn lemma_init_attempts()
    ensures
        spec_init_step(0, false) == InitStep::Retry,
        spec_init_step(1, false) == InitStep::Retry,
        spec_init_step(2, false) == InitStep::GiveUp,
        forall|a: u32| a < GYRO_INIT_ATTEMPTS ==> spec_init_step(a, true) == InitStep::Done,
{
}

/// A calibration with no check in between leaves the status it found.
pub proof fn lemma_calibration_restores_status(m: SensorMonitor)
    ensures
        ({
            let during = SensorMonitor { status: SensorStatus::Calibrating, ..m };
            let after = if during.status == SensorStatus::Calibrating {
                SensorMonitor { status: m.status, ..during }
            } else {
                during
            };
            after == m
        }),
{
}

/// A passing connection check changes the status only of a disconnected
/// sensor (which then needs calibration); every other status is kept, and the
/// error counters are cleared.
pub proof fn lemma_passing_check_keeps_status(m: SensorMonitor)
    ensures
        m.status != SensorStatus::Disconnected ==> spec_connection_check(m, true).0.status == m.status,
        m.status == SensorStatus::Disconnected ==> spec_connection_check(m, true).0.status
            == SensorStatus::NeedsCalibration,
        !spec_connection_check(m, true).1,
        spec_connection_check(m, true).0.consecutive_errors == 0,
        spec_connection_check(m, true).0.readings_since_ok == 0,
        spec_connection_check(m, true).0.disconnect_count == m.disconnect_count,
{
}

/// After a read in which both sensors fail, the status is `Disconnected` once
/// the consecutive error count reaches three and `Faulty` before, whatever it
/// was; after a read in which one sensor fails it is `Faulty`. Both count one
/// more consecutive error and one more reading without success.
pub proof fn lemma_failed_read_status(m: SensorMonitor)
    requires
        m.consecutive_errors < u16::MAX,
        m.readings_since_ok < u16::MAX,
    ensures
        spec_total_failure(m).status == (if m.consecutive_errors >= 2 {
            SensorStatus::Disconnected
        } else {
            SensorStatus::Faulty
        }),
        spec_partial_failure(m).status == SensorStatus::Faulty,
        spec_total_failure(m).consecutive_errors == m.consecutive_errors + 1,
        spec_total_failure(m).readings_since_ok == m.readings_since_ok + 1,
        spec_partial_failure(m).consecutive_errors == m.consecutive_errors + 1,
        spec_partial_failure(m).readings_since_ok == m.readings_since_ok + 1,
{
}

/// A drift check without drift returns `false` and leaves a calibrating sensor
/// or one that needs calibration as it is; any other status becomes `Normal`.
/// A drift check with drift returns `true` and marks excessive drift.
pub proof fn lemma_drift_verdict_status(m: SensorMonitor)
    ensures
        m.status == SensorStatus::Calibrating ==> spec_drift_verdict(m, false).0.status == SensorStatus::Calibrating,
        m.status == SensorStatus::NeedsCalibration ==> spec_drift_verdict(m, false).0.status
            == SensorStatus::NeedsCalibration,
        (m.status == SensorStatus::Normal || m.status == SensorStatus::Faulty || m.status
            == SensorStatus::Disconnected || m.status == SensorStatus::ExcessiveDrift) ==> spec_drift_verdict(
            m,
            false,
        ).0.status == SensorStatus::Normal,
        !spec_drift_verdict(m, false).1,
        spec_drift_verdict(m, true).1,
        spec_drift_verdict(m, true).0.status == SensorStatus::ExcessiveDrift,
        spec_drift_verdict(m, false).0.consecutive_errors == m.consecutive_errors,
        spec_drift_verdict(m, false).0.faulty_reading_count == m.faulty_reading_count,
{
}

} // verus!
