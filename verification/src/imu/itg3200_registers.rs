//! Register map of the ITG3200 gyroscope.

use vstd::prelude::*;

verus! {

/// Device identity register
pub const WHO_AM_I: u8 = 0x00;
/// Sample rate divider register
pub const SMPLRT_DIV: u8 = 0x15;
/// Low-pass filter and full-scale register
pub const DLPF_FS: u8 = 0x16;
/// Interrupt configuration register
pub const INT_CFG: u8 = 0x17;
/// Interrupt status register
pub const INT_STATUS: u8 = 0x1A;
/// Temperature output (high byte first)
pub const TEMP_OUT: u8 = 0x1B;
/// X gyro output (high byte first)
pub const GYRO_XOUT: u8 = 0x1D;
/// Y gyro output (high byte first)
pub const GYRO_YOUT: u8 = 0x1F;
/// Z gyro output (high byte first)
pub const GYRO_ZOUT: u8 = 0x21;
/// Power management register
pub const PWR_MGM: u8 = 0x3E;

/// No sample rate divider
pub const NOSRDIVIDER: u8 = 0;

/// Full-scale range of 2000 deg/s
pub const RANGE2000: u8 = 3;

/// 256Hz bandwidth, 8kHz sample rate
pub const BW256_SR8: u8 = 0;
/// 188Hz bandwidth, 1kHz sample rate
pub const BW188_SR1: u8 = 1;
/// 98Hz bandwidth, 1kHz sample rate
pub const BW098_SR1: u8 = 2;
/// 42Hz bandwidth, 1kHz sample rate
pub const BW042_SR1: u8 = 3;
/// 20Hz bandwidth, 1kHz sample rate
pub const BW020_SR1: u8 = 4;
/// 10Hz bandwidth, 1kHz sample rate
pub const BW010_SR1: u8 = 5;
/// 5Hz bandwidth, 1kHz sample rate
pub const BW005_SR1: u8 = 6;

/// Internal oscillator
pub const INTERNALOSC: u8 = 0;
/// PLL with X gyro reference
pub const PLL_XGYRO_REF: u8 = 1;
/// PLL with Y gyro reference
pub const PLL_YGYRO_REF: u8 = 2;
/// PLL with Z gyro reference
pub const PLL_ZGYRO_REF: u8 = 3;
/// PLL with external 32.768kHz reference
pub const PLL_EXTERNAL32: u8 = 4;
/// PLL with external 19.2MHz reference
pub const PLL_EXTERNAL19: u8 = 5;

/// Power management: hard reset
pub const PWRMGM_HRESET: u8 = 0x80;
/// Power management: sleep mode
pub const PWRMGM_SLEEP: u8 = 0x40;
/// Power management: X gyro standby
pub const PWRMGM_STBY_XG: u8 = 0x20;
/// Power management: Y gyro standby
pub const PWRMGM_STBY_YG: u8 = 0x10;
/// Power management: Z gyro standby
pub const PWRMGM_STBY_ZG: u8 = 0x08;

/// Full-scale selection mask
pub const DLPFFS_FS_SEL: u8 = 0x18;
/// Low-pass filter configuration mask
pub const DLPFFS_DLPF_CFG: u8 = 0x07;

/// INT output active low
pub const INTCFG_ACTL: u8 = 0x80;
/// INT output open drain
pub const INTCFG_OPEN: u8 = 0x40;
/// Latch interrupt until cleared
pub const INTCFG_LATCH_INT_EN: u8 = 0x20;
/// Clear interrupt on any register read
pub const INTCFG_INT_ANYRD_2CLEAR: u8 = 0x10;
/// Interrupt when the device is ready
pub const INTCFG_ITG_RDY_EN: u8 = 0x04;
/// Interrupt when raw data is ready
pub const INTCFG_RAW_RDY_EN: u8 = 0x01;

/// Status: device ready
pub const INTSTATUS_ITG_RDY: u8 = 0x04;
/// Status: raw data ready
pub const INTSTATUS_RAW_DATA_RDY: u8 = 0x01;

/// Start-up delay of the gyroscope in milliseconds
pub const GYROSTART_UP_DELAY: u32 = 70;

/// Default bus address
pub const ITG3200_ADDR: u8 = 0x68;

} // verus!
