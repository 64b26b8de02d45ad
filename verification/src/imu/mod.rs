pub mod adxl345_registers;
pub mod adxl345;
pub mod itg3200_registers;
pub mod itg3200;
pub mod freesix_imu;

pub use self::freesix_imu::{InitStep, SensorMonitor, SensorStatus};
