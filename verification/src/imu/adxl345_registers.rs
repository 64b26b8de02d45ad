//! Register map of the ADXL345 accelerometer.

use vstd::prelude::*;

verus! {

/// Device ID
pub const DEVID: u8 = 0x00;
/// Tap threshold
pub const THRESH_TAP: u8 = 0x1D;
/// X-axis offset
pub const OFSX: u8 = 0x1E;
/// Y-axis offset
pub const OFSY: u8 = 0x1F;
/// Z-axis offset
pub const OFSZ: u8 = 0x20;
/// Tap duration
pub const DUR: u8 = 0x21;
/// Tap latency
pub const LATENT: u8 = 0x22;
/// Tap window
pub const WINDOW: u8 = 0x23;
/// Activity threshold
pub const THRESH_ACT: u8 = 0x24;
/// Inactivity threshold
pub const THRESH_INACT: u8 = 0x25;
/// Inactivity time
pub const TIME_INACT: u8 = 0x26;
/// Axis enable control for activity/inactivity
pub const ACT_INACT_CTL: u8 = 0x27;
/// Free-fall threshold
pub const THRESH_FF: u8 = 0x28;
/// Free-fall time
pub const TIME_FF: u8 = 0x29;
/// Axis control for tap/double tap
pub const TAP_AXES: u8 = 0x2A;
/// Source of tap/double tap
pub const ACT_TAP_STATUS: u8 = 0x2B;
/// Data rate and power mode control
pub const BW_RATE: u8 = 0x2C;
/// Power control
pub const POWER_CTL: u8 = 0x2D;
/// Interrupt enable control
pub const INT_ENABLE: u8 = 0x2E;
/// Interrupt mapping control
pub const INT_MAP: u8 = 0x2F;
/// Interrupt source
pub const INT_SOURCE: u8 = 0x30;
/// Data format control
pub const DATA_FORMAT: u8 = 0x31;
/// X-axis data 0
pub const DATAX0: u8 = 0x32;
/// X-axis data 1
pub const DATAX1: u8 = 0x33;
/// Y-axis data 0
pub const DATAY0: u8 = 0x34;
/// Y-axis data 1
pub const DATAY1: u8 = 0x35;
/// Z-axis data 0
pub const DATAZ0: u8 = 0x36;
/// Z-axis data 1
pub const DATAZ1: u8 = 0x37;
/// FIFO control
pub const FIFO_CTL: u8 = 0x38;
/// FIFO status
pub const FIFO_STATUS: u8 = 0x39;

/// Power control: measurement mode
pub const PCTL_MEASURE: u8 = 0x08;
/// Power control: sleep mode
pub const PCTL_SLEEP: u8 = 0x04;
/// Power control: standby mode
pub const PCTL_STANDBY: u8 = 0x00;

/// Data format: self-test enable
pub const SELF_TEST: u8 = 0x80;
/// Data format: SPI mode (3/4 wire)
pub const SPI: u8 = 0x40;
/// Data format: interrupt inversion
pub const INT_INVERT: u8 = 0x20;
/// Data format: full resolution mode
pub const FULL_RES: u8 = 0x08;
/// Data format: data justification
pub const JUSTIFY: u8 = 0x04;

/// ±2g range
pub const RANGE_2G: u8 = 0x00;
/// ±4g range
pub const RANGE_4G: u8 = 0x01;
/// ±8g range
pub const RANGE_8G: u8 = 0x02;
/// ±16g range
pub const RANGE_16G: u8 = 0x03;

/// Default bus address (SDO/ALT ADDRESS pin low)
pub const ADXL345_ADDR: u8 = 0x53;

} // verus!
