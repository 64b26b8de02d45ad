//! Verified core of the self-balancing robot firmware: sensor register
//! encodings, raw-sample decoding, gyroscope calibration, sensor health
//! tracking, stepper motor bookkeeping and TMC2209 configuration datagrams.

pub mod gpio_utils;
pub mod i2c_wrapper;
pub mod imu;
pub mod motor;
pub mod stepper;
